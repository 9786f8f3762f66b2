use vstd::prelude::*;

verus! {

/// `i` is the first position at which `names` holds `name`.
pub open spec fn is_first(names: Seq<Seq<char>>, name: Seq<char>, i: int) -> bool {
    &&& 0 <= i < names.len()
    &&& names[i] == name
    &&& forall|j: int| 0 <= j < i ==> names[j] != name
}

/// The first position at which `names` holds `name`, or -1 where it holds it nowhere.
pub open spec fn first_index(names: Seq<Seq<char>>, name: Seq<char>) -> int {
    if names.contains(name) {
        choose|i: int| is_first(names, name, i)
    } else {
        -1
    }
}

/// A first position found by a scan is the one that `first_index` names.
pub proof fn lemma_first_index(names: Seq<Seq<char>>, name: Seq<char>, i: int)
    requires
        is_first(names, name, i),
    ensures
        first_index(names, name) == i,
{
    assert(names.contains(name));
    let c = choose|c: int| is_first(names, name, c);
    assert(is_first(names, name, c));
    if c < i {
        assert(names[c] != name);
    } else if c > i {
        assert(names[i] != name);
    }
}

} // verus!
