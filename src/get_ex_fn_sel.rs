use vstd::prelude::*;

use crate::cairo_function::{efs, CairoNonGenericFunction};
use crate::cairo_trait::CairoNonGenericTrait;
use crate::selector::{
    digits_view, get_interface_id, get_selector_from_signature, lemma_xor_all_permutation,
    selector_of, xor_all, Selector,
};
use crate::types::{CairoEnum, CairoStruct, Src5Error};

verus! {

/// The signatures of `fs` in order, or the first error met from the left.
pub open spec fn efs_each(
    structs: Seq<CairoStruct>,
    enums: Seq<CairoEnum>,
    fs: Seq<CairoNonGenericFunction>,
) -> Result<Seq<Seq<char>>, Src5Error>
    decreases fs.len(),
{
    if fs.len() == 0 {
        Ok(Seq::empty())
    } else {
        match efs_each(structs, enums, fs.drop_last()) {
            Err(e) => Err(e),
            Ok(prefix) => match efs(structs, enums, fs.last()) {
                Err(e) => Err(e),
                Ok(s) => Ok(prefix.push(s)),
            },
        }
    }
}

/// The interface id of a trait with the functions `fs`: the exclusive or of
/// the selectors of their signatures.
pub open spec fn interface_id_of(
    structs: Seq<CairoStruct>,
    enums: Seq<CairoEnum>,
    fs: Seq<CairoNonGenericFunction>,
) -> Result<Seq<u64>, Src5Error> {
    match efs_each(structs, enums, fs) {
        Ok(sigs) => Ok(xor_all(sigs.map_values(|s: Seq<char>| selector_of(s)))),
        Err(e) => Err(e),
    }
}

/// A signature and its selector agree with the model.
pub open spec fn pair_matches(
    structs: Seq<CairoStruct>,
    enums: Seq<CairoEnum>,
    f: CairoNonGenericFunction,
    p: (String, Selector),
) -> bool {
    &&& efs(structs, enums, f) == Ok::<Seq<char>, Src5Error>(p.0@)
    &&& p.1.digits@ == selector_of(p.0@)
}

/// The signature of a function and its selector.
pub fn get_extended_function_selector(
    function: &CairoNonGenericFunction,
    cairo_structs: &[CairoStruct],
    cairo_enums: &[CairoEnum],
) -> (r: Result<(String, Selector), Src5Error>)
    ensures
        match r {
            Ok(p) => pair_matches(cairo_structs@, cairo_enums@, *function, p),
            Err(e) => efs(cairo_structs@, cairo_enums@, *function) == Err::<Seq<char>, Src5Error>(e),
        },
{
    match function.get_efs_signature(cairo_structs, cairo_enums) {
        Err(e) => Err(e),
        Ok(signature) => {
            let selector = get_selector_from_signature(signature.as_str());
            Ok((signature, selector))
        },
    }
}

/// The signatures of a trait's functions with their selectors, in declared
/// order, or the first error met.
pub fn get_extended_function_selectors(
    cairo_trait: &CairoNonGenericTrait,
    cairo_structs: &[CairoStruct],
    cairo_enums: &[CairoEnum],
) -> (r: Result<Vec<(String, Selector)>, Src5Error>)
    ensures
        match r {
            Ok(v) => {
                &&& efs_each(cairo_structs@, cairo_enums@, cairo_trait.functions@) == Ok::<
                    Seq<Seq<char>>,
                    Src5Error,
                >(v@.map_values(|p: (String, Selector)| p.0@))
                &&& forall|i: int|
                    0 <= i < v@.len() ==> #[trigger] v@[i].1.digits@ == selector_of(v@[i].0@)
            },
            Err(e) => efs_each(cairo_structs@, cairo_enums@, cairo_trait.functions@) == Err::<
                Seq<Seq<char>>,
                Src5Error,
            >(e),
        },
{
    let fs = &cairo_trait.functions;
    let mut out: Vec<(String, Selector)> = Vec::new();
    let mut i: usize = 0;
    proof {
        assert(fs@.subrange(0, 0) =~= Seq::<CairoNonGenericFunction>::empty());
        assert(out@.map_values(|p: (String, Selector)| p.0@) =~= Seq::<Seq<char>>::empty());
    }
    while i < fs.len()
        invariant
            i <= fs.len(),
            fs == cairo_trait.functions,
            efs_each(cairo_structs@, cairo_enums@, fs@.subrange(0, i as int)) == Ok::<
                Seq<Seq<char>>,
                Src5Error,
            >(out@.map_values(|p: (String, Selector)| p.0@)),
            forall|j: int| 0 <= j < out@.len() ==> #[trigger] out@[j].1.digits@ == selector_of(out@[j].0@),
        decreases fs.len() - i,
    {
        proof {
            assert(fs@.subrange(0, i + 1).drop_last() =~= fs@.subrange(0, i as int));
            assert(fs@.subrange(0, i + 1).last() == fs@[i as int]);
        }
        match get_extended_function_selector(&fs[i], cairo_structs, cairo_enums) {
            Err(e) => {
                proof {
                    lemma_efs_each_prefix_err(cairo_structs@, cairo_enums@, fs@, i + 1);
                }
                return Err(e);
            },
            Ok(p) => {
                let ghost prev = out@;
                out.push(p);
                proof {
                    assert(out@.map_values(|p: (String, Selector)| p.0@) =~= prev.map_values(
                        |p: (String, Selector)| p.0@,
                    ).push(p.0@));
                }
            },
        }
        i += 1;
    }
    proof {
        assert(fs@.subrange(0, fs.len() as int) =~= fs@);
    }
    Ok(out)
}

impl CairoNonGenericTrait {
    /// The interface id of this trait: the exclusive or of the selectors of
    /// its functions' signatures; zero for a trait with no functions.
    pub fn get_interface_id(&self, cairo_structs: &[CairoStruct], cairo_enums: &[CairoEnum]) -> (r:
        Result<Selector, Src5Error>)
        ensures
            match r {
                Ok(id) => interface_id_of(cairo_structs@, cairo_enums@, self.functions@) == Ok::<
                    Seq<u64>,
                    Src5Error,
                >(id.digits@),
                Err(e) => interface_id_of(cairo_structs@, cairo_enums@, self.functions@) == Err::<
                    Seq<u64>,
                    Src5Error,
                >(e),
            },
    {
        match get_extended_function_selectors(self, cairo_structs, cairo_enums) {
            Err(e) => Err(e),
            Ok(pairs) => {
                let mut selectors: Vec<Selector> = Vec::new();
                let mut i: usize = 0;
                while i < pairs.len()
                    invariant
                        i <= pairs.len(),
                        selectors@.len() == i,
                        forall|j: int| 0 <= j < i ==> #[trigger] selectors@[j] == pairs@[j].1,
                    decreases pairs.len() - i,
                {
                    selectors.push(pairs[i].1);
                    i += 1;
                }
                let id = get_interface_id(&selectors);
                proof {
                    let sigs = pairs@.map_values(|p: (String, Selector)| p.0@);
                    assert(digits_view(selectors@) =~= sigs.map_values(
                        |s: Seq<char>| selector_of(s),
                    ));
                }
                Ok(id)
            },
        }
    }
}

/// Where the first `k` signatures already fail, all of them fail with the same error.
proof fn lemma_efs_each_prefix_err(
    structs: Seq<CairoStruct>,
    enums: Seq<CairoEnum>,
    fs: Seq<CairoNonGenericFunction>,
    k: int,
)
    requires
        0 <= k <= fs.len(),
        efs_each(structs, enums, fs.subrange(0, k)) is Err,
    ensures
        efs_each(structs, enums, fs) == efs_each(structs, enums, fs.subrange(0, k)),
    decreases fs.len() - k,
{
    if k < fs.len() {
        assert(fs.subrange(0, k + 1).drop_last() =~= fs.subrange(0, k));
        lemma_efs_each_prefix_err(structs, enums, fs, k + 1);
    } else {
        assert(fs.subrange(0, k) =~= fs);
    }
}

/// The signatures succeed exactly when each function's signature does, and
/// are then those signatures in order.
proof fn lemma_efs_each_ok(structs: Seq<CairoStruct>, enums: Seq<CairoEnum>, fs: Seq<CairoNonGenericFunction>)
    ensures
        efs_each(structs, enums, fs) is Ok <==> forall|i: int|
            0 <= i < fs.len() ==> #[trigger] efs(structs, enums, fs[i]) is Ok,
        efs_each(structs, enums, fs) is Ok ==> efs_each(structs, enums, fs)->Ok_0 =~= fs.map_values(
            |f: CairoNonGenericFunction| efs(structs, enums, f)->Ok_0,
        ),
    decreases fs.len(),
{
    if fs.len() > 0 {
        let p = fs.drop_last();
        lemma_efs_each_ok(structs, enums, p);
        if efs_each(structs, enums, fs) is Ok {
            assert forall|i: int| 0 <= i < fs.len() implies #[trigger] efs(structs, enums, fs[i]) is Ok by {
                if i < fs.len() - 1 {
                    assert(p[i] == fs[i]);
                }
            }
        }
        if forall|i: int| 0 <= i < fs.len() ==> #[trigger] efs(structs, enums, fs[i]) is Ok {
            assert forall|i: int| 0 <= i < p.len() implies #[trigger] efs(structs, enums, p[i]) is Ok by {
                assert(p[i] == fs[i]);
            }
            assert(efs(structs, enums, fs[fs.len() - 1]) is Ok);
        }
    }
}

/// Reordering a trait's functions does not change its interface id: either
/// both orders have an id, and it is the same, or neither has one.
pub proof fn lemma_trait_interface_id_order_independent(
    structs: Seq<CairoStruct>,
    enums: Seq<CairoEnum>,
    a: Seq<CairoNonGenericFunction>,
    b: Seq<CairoNonGenericFunction>,
)
    requires
        a.to_multiset() == b.to_multiset(),
    ensures
        interface_id_of(structs, enums, a) is Ok <==> interface_id_of(structs, enums, b) is Ok,
        interface_id_of(structs, enums, a) is Ok ==> interface_id_of(structs, enums, b)
            == interface_id_of(structs, enums, a),
{
    broadcast use vstd::seq_lib::group_to_multiset_ensures;

    lemma_efs_each_ok(structs, enums, a);
    lemma_efs_each_ok(structs, enums, b);
    assert forall|i: int| 0 <= i < b.len() implies #[trigger] a.contains(b[i]) by {
        assert(b.contains(b[i]));
        assert(b.to_multiset().count(b[i]) > 0);
        assert(a.contains(b[i]));
    }
    assert forall|i: int| 0 <= i < a.len() implies #[trigger] b.contains(a[i]) by {
        assert(a.contains(a[i]));
        assert(a.to_multiset().count(a[i]) > 0);
        assert(b.contains(a[i]));
    }
    if interface_id_of(structs, enums, a) is Ok {
        assert forall|i: int| 0 <= i < b.len() implies #[trigger] efs(structs, enums, b[i]) is Ok by {
            assert(a.contains(b[i]));
            let j = choose|j: int| 0 <= j < a.len() && a[j] == b[i];
            assert(efs(structs, enums, a[j]) is Ok);
        }
        let g = |f: CairoNonGenericFunction| efs(structs, enums, f)->Ok_0;
        let h = |f: CairoNonGenericFunction| selector_of(efs(structs, enums, f)->Ok_0);
        assert(a.map_values(g).map_values(|s: Seq<char>| selector_of(s)) =~= a.map_values(h));
        assert(b.map_values(g).map_values(|s: Seq<char>| selector_of(s)) =~= b.map_values(h));
        lemma_xor_all_permutation(a, b, h);
    }
    if interface_id_of(structs, enums, b) is Ok {
        assert forall|i: int| 0 <= i < a.len() implies #[trigger] efs(structs, enums, a[i]) is Ok by {
            assert(b.contains(a[i]));
            let j = choose|j: int| 0 <= j < b.len() && b[j] == a[i];
            assert(efs(structs, enums, b[j]) is Ok);
        }
    }
}

} // verus!
