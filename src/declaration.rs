use vstd::prelude::*;

use crate::syntax::{NodeKind, SyntaxTree};
use crate::type_syntax::{get_type_from_type_clause_node, shapes_of, type_of_holder};
use crate::types::{names_view, Src5Error, TypeRef, TypeShape};
use crate::utils::{
    child_index, find_children, gather, lemma_child_index, lemma_gather_prefix_err, lemma_gather_step,
    missing, read_matches,
};

verus! {

/// What a child of a generic parameter list contributes: the name of a type parameter.
pub open spec fn param_pick(c: SyntaxTree) -> Option<Result<Seq<char>, Seq<char>>> {
    if c.kind == NodeKind::GenericParamType {
        Some(Ok(c.text@))
    } else {
        None
    }
}

/// `param_pick` as a function value.
pub open spec fn param_picker() -> spec_fn(SyntaxTree) -> Option<Result<Seq<char>, Seq<char>>> {
    |c: SyntaxTree| param_pick(c)
}

/// The generic type parameters that a struct or enum declares, in order.
pub open spec fn generics_of(n: SyntaxTree) -> Seq<Seq<char>> {
    let w = child_index(n, NodeKind::WrappedGenericParamList);
    if w < 0 {
        Seq::empty()
    } else {
        let wn = n.children@[w];
        let l = child_index(wn, NodeKind::GenericParamList);
        if l < 0 {
            Seq::empty()
        } else {
            gather(wn.children@[l].children@, param_picker())->Ok_0
        }
    }
}

/// What a child of a member list (or, for an enum, a variant list)
/// contributes: the type of a member, or of a variant that declares one.
pub open spec fn member_pick(c: SyntaxTree, is_enum: bool) -> Option<Result<TypeShape, Seq<char>>> {
    let tc = child_index(c, NodeKind::TypeClause);
    if is_enum && c.kind == NodeKind::Variant {
        if tc < 0 {
            None
        } else {
            Some(type_of_holder(c.children@[tc]))
        }
    } else if !is_enum && c.kind == NodeKind::Member {
        if tc < 0 {
            Some(Err("TypeClause"@))
        } else {
            Some(type_of_holder(c.children@[tc]))
        }
    } else {
        None
    }
}

/// `member_pick` as a function value.
pub open spec fn member_picker(is_enum: bool) -> spec_fn(SyntaxTree) -> Option<Result<TypeShape, Seq<char>>> {
    |c: SyntaxTree| member_pick(c, is_enum)
}

/// The generic type parameters of a struct or enum item.
pub fn get_generics_from_item(node: &SyntaxTree) -> (r: Vec<String>)
    ensures
        names_view(r@) == generics_of(*node),
{
    let mut out: Vec<String> = Vec::new();
    let wrapped = match find_children(node, NodeKind::WrappedGenericParamList) {
        Some(w) => w,
        None => {
            proof {
                assert(names_view(out@) =~= Seq::<Seq<char>>::empty());
            }
            return out;
        },
    };
    let list = match find_children(wrapped, NodeKind::GenericParamList) {
        Some(l) => l,
        None => {
            proof {
                assert(names_view(out@) =~= Seq::<Seq<char>>::empty());
            }
            return out;
        },
    };
    let ghost f = param_picker();
    let mut i: usize = 0;
    proof {
        assert(list.children@.subrange(0, 0) =~= Seq::<SyntaxTree>::empty());
        assert(names_view(out@) =~= Seq::<Seq<char>>::empty());
    }
    while i < list.children.len()
        invariant
            i <= list.children@.len(),
            f == param_picker(),
            gather(list.children@.subrange(0, i as int), f) == Ok::<Seq<Seq<char>>, Seq<char>>(
                names_view(out@),
            ),
        decreases list.children@.len() - i,
    {
        proof {
            lemma_gather_step(list.children@, f, i as int);
        }
        if list.children[i].kind == NodeKind::GenericParamType {
            let ghost prev = names_view(out@);
            let name = list.children[i].text.clone();
            out.push(name);
            proof {
                assert(names_view(out@) =~= prev.push(name@));
            }
        }
        i += 1;
    }
    proof {
        assert(list.children@.subrange(0, list.children@.len() as int) =~= list.children@);
    }
    out
}

/// The types of the members of a member list (or of the variants of a
/// variant list that declare a type).
pub fn get_member_types(list: &SyntaxTree, is_enum: bool) -> (r: Result<Vec<TypeRef>, Src5Error>)
    ensures
        read_matches(
            r,
            gather(list.children@, member_picker(is_enum)),
            |v: Vec<TypeRef>| shapes_of(v),
        ),
{
    let ghost f = member_picker(is_enum);
    let mut out: Vec<TypeRef> = Vec::new();
    let mut i: usize = 0;
    proof {
        assert(list.children@.subrange(0, 0) =~= Seq::<SyntaxTree>::empty());
        assert(shapes_of(out) =~= Seq::<TypeShape>::empty());
    }
    while i < list.children.len()
        invariant
            i <= list.children@.len(),
            f == member_picker(is_enum),
            gather(list.children@.subrange(0, i as int), f) == Ok::<Seq<TypeShape>, Seq<char>>(
                shapes_of(out),
            ),
        decreases list.children@.len() - i,
    {
        proof {
            lemma_gather_step(list.children@, f, i as int);
            lemma_child_index(list.children@[i as int], NodeKind::TypeClause);
        }
        let c = &list.children[i];
        let wanted = if is_enum {
            c.kind == NodeKind::Variant
        } else {
            c.kind == NodeKind::Member
        };
        if wanted {
            match find_children(c, NodeKind::TypeClause) {
                None => {
                    if !is_enum {
                        proof {
                            lemma_gather_prefix_err(list.children@, f, i + 1);
                        }
                        return Err(missing("TypeClause"));
                    }
                },
                Some(clause) => match get_type_from_type_clause_node(clause) {
                    Err(e) => {
                        proof {
                            lemma_gather_prefix_err(list.children@, f, i + 1);
                        }
                        return Err(e);
                    },
                    Ok(t) => {
                        let ghost prev = shapes_of(out);
                        let ghost ts = t.shape();
                        out.push(t);
                        proof {
                            assert(shapes_of(out) =~= prev.push(ts));
                        }
                    },
                },
            }
        }
        i += 1;
    }
    proof {
        assert(list.children@.subrange(0, list.children@.len() as int) =~= list.children@);
    }
    Ok(out)
}

} // verus!
