use vstd::prelude::*;

use crate::syntax::{preorder, preorder_list, NodeKind, SyntaxTree};
use crate::types::Src5Error;

verus! {

/// The position of the first node of kind `k` in `cs` at or after `i`, or -1.
pub open spec fn first_of_kind(cs: Seq<SyntaxTree>, k: NodeKind, i: int) -> int
    decreases cs.len() - i,
{
    if i < 0 || i >= cs.len() {
        -1
    } else if cs[i].kind == k {
        i
    } else {
        first_of_kind(cs, k, i + 1)
    }
}

/// The position of the first child of `n` of kind `k`, or -1.
pub open spec fn child_index(n: SyntaxTree, k: NodeKind) -> int {
    first_of_kind(n.children@, k, 0)
}

pub proof fn lemma_first_of_kind(cs: Seq<SyntaxTree>, k: NodeKind, i: int)
    requires
        0 <= i,
    ensures
        first_of_kind(cs, k, i) == -1 || (i <= first_of_kind(cs, k, i) < cs.len() && cs[first_of_kind(
            cs,
            k,
            i,
        )].kind == k),
        first_of_kind(cs, k, i) == -1 ==> forall|j: int| i <= j < cs.len() ==> cs[j].kind != k,
    decreases cs.len() - i,
{
    if i < cs.len() && cs[i].kind != k {
        lemma_first_of_kind(cs, k, i + 1);
    }
}

/// Where a child of the kind exists, `child_index` is a valid position
/// holding that kind.
pub proof fn lemma_child_index(n: SyntaxTree, k: NodeKind)
    ensures
        child_index(n, k) == -1 || (0 <= child_index(n, k) < n.children@.len()
            && n.children@[child_index(n, k)].kind == k),
{
    lemma_first_of_kind(n.children@, k, 0);
}

/// The first child of a node with the given kind.
pub fn find_children(node: &SyntaxTree, kind: NodeKind) -> (r: Option<&SyntaxTree>)
    ensures
        r is Some <==> child_index(*node, kind) >= 0,
        r matches Some(c) ==> *c == node.children@[child_index(*node, kind)],
{
    let mut i: usize = 0;
    while i < node.children.len()
        invariant
            i <= node.children@.len(),
            first_of_kind(node.children@, kind, 0) == first_of_kind(node.children@, kind, i as int),
        decreases node.children@.len() - i,
    {
        if node.children[i].kind == kind {
            return Some(&node.children[i]);
        }
        i += 1;
    }
    None
}

/// What an element contributes to a list being gathered: nothing, a value,
/// or an error.
pub open spec fn gather<X>(ts: Seq<SyntaxTree>, f: spec_fn(SyntaxTree) -> Option<Result<X, Seq<char>>>) -> Result<
    Seq<X>,
    Seq<char>,
>
    decreases ts.len(),
{
    if ts.len() == 0 {
        Ok(Seq::empty())
    } else {
        match gather(ts.drop_last(), f) {
            Err(e) => Err(e),
            Ok(prefix) => match f(ts.last()) {
                None => Ok(prefix),
                Some(Err(e)) => Err(e),
                Some(Ok(x)) => Ok(prefix.push(x)),
            },
        }
    }
}

/// Gathering the first `k + 1` elements after the first `k` gave `prefix`.
pub proof fn lemma_gather_step<X>(
    ts: Seq<SyntaxTree>,
    f: spec_fn(SyntaxTree) -> Option<Result<X, Seq<char>>>,
    k: int,
)
    requires
        0 <= k < ts.len(),
    ensures
        gather(ts.subrange(0, k + 1), f) == match gather(ts.subrange(0, k), f) {
            Err(e) => Err(e),
            Ok(prefix) => match f(ts[k]) {
                None => Ok(prefix),
                Some(Err(e)) => Err(e),
                Some(Ok(x)) => Ok(prefix.push(x)),
            },
        },
{
    assert(ts.subrange(0, k + 1).drop_last() =~= ts.subrange(0, k));
}

/// An error met in the first `k` elements is the error of the whole list.
pub proof fn lemma_gather_prefix_err<X>(
    ts: Seq<SyntaxTree>,
    f: spec_fn(SyntaxTree) -> Option<Result<X, Seq<char>>>,
    k: int,
)
    requires
        0 <= k <= ts.len(),
        gather(ts.subrange(0, k), f) is Err,
    ensures
        gather(ts, f) == gather(ts.subrange(0, k), f),
    decreases ts.len() - k,
{
    if k < ts.len() {
        lemma_gather_step(ts, f, k);
        lemma_gather_prefix_err(ts, f, k + 1);
    } else {
        assert(ts.subrange(0, k) =~= ts);
    }
}

/// Gathering two lists one after the other.
pub proof fn lemma_gather_append<X>(
    a: Seq<SyntaxTree>,
    b: Seq<SyntaxTree>,
    f: spec_fn(SyntaxTree) -> Option<Result<X, Seq<char>>>,
)
    ensures
        gather(a + b, f) == match gather(a, f) {
            Err(e) => Err(e),
            Ok(p) => match gather(b, f) {
                Err(e) => Err(e),
                Ok(q) => Ok(p + q),
            },
        },
    decreases b.len(),
{
    if b.len() == 0 {
        assert(a + b =~= a);
        if gather(a, f) is Ok {
            assert(gather(a, f)->Ok_0 + Seq::<X>::empty() =~= gather(a, f)->Ok_0);
        }
    } else {
        lemma_gather_append(a, b.drop_last(), f);
        assert((a + b).drop_last() =~= a + b.drop_last());
        assert((a + b).last() == b.last());
        if gather(a, f) is Ok && gather(b.drop_last(), f) is Ok {
            let p = gather(a, f)->Ok_0;
            let q = gather(b.drop_last(), f)->Ok_0;
            match f(b.last()) {
                Some(Ok(x)) => {
                    assert((p + q).push(x) =~= p + q.push(x));
                },
                _ => {},
            }
        }
    }
}

/// An executable result of reading the syntax tree agrees with its model,
/// whose error is the kind of the child that was missing.
pub open spec fn read_matches<T, V>(
    r: Result<T, Src5Error>,
    m: Result<V, Seq<char>>,
    view: spec_fn(T) -> V,
) -> bool {
    match r {
        Ok(t) => m == Ok::<V, Seq<char>>(view(t)),
        Err(e) => e is StructuralMismatch && m == Err::<V, Seq<char>>(e->StructuralMismatch_0@),
    }
}

/// The error for a node that lacks a child of the kind `kind`.
pub fn missing(kind: &str) -> (r: Src5Error)
    ensures
        r is StructuralMismatch,
        r->StructuralMismatch_0@ == kind@,
{
    Src5Error::StructuralMismatch(String::from_str(kind))
}

/// The listing of the first `k` trees is a prefix of the listing of all of them.
pub proof fn lemma_preorder_list_prefix(s: Seq<SyntaxTree>, k: int)
    requires
        0 <= k <= s.len(),
    ensures
        preorder_list(s.subrange(0, k)).len() <= preorder_list(s).len(),
        preorder_list(s).subrange(0, preorder_list(s.subrange(0, k)).len() as int)
            == preorder_list(s.subrange(0, k)),
    decreases s.len(),
{
    if k == s.len() {
        assert(s.subrange(0, k) =~= s);
        assert(preorder_list(s).subrange(0, preorder_list(s).len() as int) =~= preorder_list(s));
    } else {
        let p = s.subrange(0, s.len() - 1);
        lemma_preorder_list_prefix(p, k);
        assert(p.subrange(0, k) =~= s.subrange(0, k));
        let a = preorder_list(p);
        let b = preorder(s[s.len() - 1]);
        let n = preorder_list(s.subrange(0, k)).len() as int;
        assert((a + b).subrange(0, n) =~= a.subrange(0, n));
    }
}

/// The preorder listing of a node whose first `i` children have been walked,
/// as walked so far.
pub open spec fn walked(t: SyntaxTree, i: int) -> Seq<SyntaxTree> {
    seq![t] + preorder_list(t.children@.subrange(0, i))
}

/// What has been walked is a prefix of the whole listing, and walking one more
/// child appends that child's listing.
pub proof fn lemma_walked(t: SyntaxTree, i: int)
    requires
        0 <= i <= t.children@.len(),
    ensures
        walked(t, i).len() <= preorder(t).len(),
        preorder(t).subrange(0, walked(t, i).len() as int) == walked(t, i),
        i == t.children@.len() ==> walked(t, i) == preorder(t),
        i < t.children@.len() ==> walked(t, i + 1) == walked(t, i) + preorder(t.children@[i]),
{
    let cs = t.children@;
    lemma_preorder_list_prefix(cs, i);
    let w = walked(t, i);
    let pl = preorder_list(cs.subrange(0, i));
    assert(preorder(t) == seq![t] + preorder_list(cs));
    assert(preorder(t).subrange(0, w.len() as int) =~= seq![t] + preorder_list(cs).subrange(
        0,
        pl.len() as int,
    ));
    if i == cs.len() {
        assert(cs.subrange(0, i) =~= cs);
    }
    if i < cs.len() {
        assert(cs.subrange(0, i + 1).subrange(0, i) =~= cs.subrange(0, i));
        assert(cs.subrange(0, i + 1)[i] == cs[i]);
        assert(walked(t, i + 1) =~= walked(t, i) + preorder(cs[i]));
    }
}

/// Gathering a single node.
pub proof fn lemma_gather_single<X>(t: SyntaxTree, f: spec_fn(SyntaxTree) -> Option<Result<X, Seq<char>>>)
    ensures
        gather(seq![t], f) == match f(t) {
            None => Ok(Seq::empty()),
            Some(Err(e)) => Err(e),
            Some(Ok(x)) => Ok(seq![x]),
        },
{
    reveal_with_fuel(gather, 2);
    assert(seq![t].drop_last() =~= Seq::<SyntaxTree>::empty());
    assert(seq![t].last() == t);
    assert(gather(Seq::<SyntaxTree>::empty(), f) == Ok::<Seq<X>, Seq<char>>(Seq::empty()));
    match f(t) {
        Some(Ok(x)) => {
            assert(Seq::<X>::empty().push(x) =~= seq![x]);
        },
        _ => {},
    }
}

} // verus!
