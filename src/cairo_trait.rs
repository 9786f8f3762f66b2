use vstd::prelude::*;

use crate::cairo_function::{
    function_views, functions_of_body, get_functions_from_trait_body,
    CairoNonGenericFunction,
};
use crate::syntax::{preorder, NodeKind, SyntaxTree};
use crate::types::{Src5Error, TypeShape};
use crate::utils::{
    child_index, find_children, gather, lemma_gather_append, lemma_gather_prefix_err,
    lemma_gather_single, lemma_walked, missing, read_matches, walked,
};

verus! {

/// A trait without generic parameters: its name and its functions in
/// declaration order.
#[derive(Debug)]
pub struct CairoNonGenericTrait {
    pub name: String,
    pub functions: Vec<CairoNonGenericFunction>,
}

/// The name and function views of a trait.
pub open spec fn trait_view(t: CairoNonGenericTrait) -> (Seq<char>, Seq<(Seq<char>, Seq<TypeShape>, Option<TypeShape>)>) {
    (t.name@, function_views(t.functions@))
}

pub open spec fn trait_views(v: Seq<CairoNonGenericTrait>) -> Seq<(Seq<char>, Seq<(Seq<char>, Seq<TypeShape>, Option<TypeShape>)>)> {
    v.map_values(|tr: CairoNonGenericTrait| trait_view(tr))
}

/// A trait item read from the tree: its name and its functions.
pub open spec fn trait_of(n: SyntaxTree) -> Result<(Seq<char>, Seq<(Seq<char>, Seq<TypeShape>, Option<TypeShape>)>), Seq<char>> {
    let id = child_index(n, NodeKind::TerminalIdentifier);
    let b = child_index(n, NodeKind::TraitBody);
    if id < 0 {
        Err("TerminalIdentifier"@)
    } else if b < 0 {
        Err("TraitBody"@)
    } else {
        match functions_of_body(n.children@[b]) {
            Err(e) => Err(e),
            Ok(fs) => Ok((n.children@[id].text@, fs)),
        }
    }
}

/// What a node contributes to the non-generic traits of a tree: traits with
/// generic parameters are left out.
pub open spec fn trait_pick(n: SyntaxTree) -> Option<Result<(Seq<char>, Seq<(Seq<char>, Seq<TypeShape>, Option<TypeShape>)>), Seq<char>>> {
    if n.kind == NodeKind::ItemTrait && child_index(n, NodeKind::OptionWrappedGenericParamListEmpty)
        >= 0 {
        Some(trait_of(n))
    } else {
        None
    }
}

/// `trait_pick` as a function value.
pub open spec fn trait_picker() -> spec_fn(SyntaxTree) -> Option<Result<(Seq<char>, Seq<(Seq<char>, Seq<TypeShape>, Option<TypeShape>)>), Seq<char>>> {
    |c: SyntaxTree| trait_pick(c)
}

/// The non-generic traits of a tree, in preorder.
pub open spec fn traits_in(t: SyntaxTree) -> Result<Seq<(Seq<char>, Seq<(Seq<char>, Seq<TypeShape>, Option<TypeShape>)>)>, Seq<char>> {
    gather(preorder(t), trait_picker())
}

/// Reads one trait item.
pub fn get_trait_from_item(node: &SyntaxTree) -> (r: Result<CairoNonGenericTrait, Src5Error>)
    ensures
        read_matches(r, trait_of(*node), |tr: CairoNonGenericTrait| trait_view(tr)),
{
    let id = match find_children(node, NodeKind::TerminalIdentifier) {
        Some(i) => i,
        None => {
            return Err(missing("TerminalIdentifier"));
        },
    };
    let body = match find_children(node, NodeKind::TraitBody) {
        Some(b) => b,
        None => {
            return Err(missing("TraitBody"));
        },
    };
    match get_functions_from_trait_body(body) {
        Err(e) => Err(e),
        Ok(functions) => Ok(CairoNonGenericTrait { name: id.text.clone(), functions }),
    }
}

/// Walks `t` in preorder, appending what the non-generic traits it holds to `out`.
fn collect_traits(t: &SyntaxTree, out: &mut Vec<CairoNonGenericTrait>) -> (r: Result<(), Src5Error>)
    ensures
        match gather(preorder(*t), trait_picker()) {
            Ok(q) => r is Ok && trait_views(final(out)@) == trait_views(old(out)@) + q,
            Err(e) => r matches Err(x) && x is StructuralMismatch && x->StructuralMismatch_0@ == e,
        },
    decreases *t,
{
    let ghost f = trait_picker();
    let ghost start = trait_views(out@);
    proof {
        lemma_walked(*t, 0);
        assert(walked(*t, 0) =~= seq![*t]);
        lemma_gather_single(*t, f);
    }
    let non_generic = t.kind == NodeKind::ItemTrait && find_children(
        t,
        NodeKind::OptionWrappedGenericParamListEmpty,
    ).is_some();
    proof {
        assert(non_generic == (trait_pick(*t) is Some));
    }
    if non_generic {
        match get_trait_from_item(t) {
            Err(e) => {
                proof {
                    lemma_gather_prefix_err(preorder(*t), f, 1);
                }
                return Err(e);
            },
            Ok(x) => {
                let ghost xv = trait_views(seq![x]);
                out.push(x);
                proof {
                    assert(trait_views(out@) =~= start + xv);
                }
            },
        }
    } else {
        proof {
            assert(trait_views(out@) =~= start + Seq::empty());
        }
    }
    let mut i: usize = 0;
    while i < t.children.len()
        invariant
            i <= t.children@.len(),
            f == trait_picker(),
            start == trait_views(old(out)@),
            gather(walked(*t, i as int), f) is Ok,
            trait_views(out@) == start + gather(walked(*t, i as int), f)->Ok_0,
        decreases t.children@.len() - i,
    {
        proof {
            lemma_walked(*t, i as int);
            lemma_walked(*t, i + 1);
            lemma_gather_append(walked(*t, i as int), preorder(t.children@[i as int]), f);
        }
        let ghost before = trait_views(out@);
        match collect_traits(&t.children[i], out) {
            Err(e) => {
                proof {
                    lemma_gather_prefix_err(preorder(*t), f, walked(*t, i + 1).len() as int);
                }
                return Err(e);
            },
            Ok(()) => {},
        }
        proof {
            let q = gather(walked(*t, i as int), f)->Ok_0;
            let q2 = gather(preorder(t.children@[i as int]), f)->Ok_0;
            assert(start + q + q2 =~= start + (q + q2));
        }
        i += 1;
    }
    proof {
        lemma_walked(*t, t.children@.len() as int);
    }
    Ok(())
}

/// The traits of a syntax tree that have no generic parameters, in preorder.
pub fn get_non_generic_traits(syntax_tree: &SyntaxTree) -> (r: Result<Vec<CairoNonGenericTrait>, Src5Error>)
    ensures
        read_matches(r, traits_in(*syntax_tree), |v: Vec<CairoNonGenericTrait>| trait_views(v@)),
{
    let mut out: Vec<CairoNonGenericTrait> = Vec::new();
    proof {
        assert(trait_views(out@) =~= Seq::empty());
    }
    match collect_traits(syntax_tree, &mut out) {
        Err(e) => Err(e),
        Ok(()) => {
            proof {
                let q = traits_in(*syntax_tree)->Ok_0;
                assert(Seq::<(Seq<char>, Seq<(Seq<char>, Seq<TypeShape>, Option<TypeShape>)>)>::empty() + q =~= q);
            }
            Ok(out)
        },
    }
}

} // verus!
