use vstd::prelude::*;

use crate::syntax::{NodeKind, SyntaxTree};
use crate::types::{lemma_path_shape, lemma_tuple_shape, Src5Error, TypeRef, TypeShape};
use crate::utils::{child_index, find_children, lemma_child_index, missing, read_matches};

verus! {

// ---------------------------------------------------------------------------
// The model: which type a type expression in the syntax tree denotes
// ---------------------------------------------------------------------------

/// The type held by a type clause, a return type clause or a generic
/// argument: its snapshot, tuple or path child, in that order of preference.
pub open spec fn type_of_holder(n: SyntaxTree) -> Result<TypeShape, Seq<char>>
    decreases n,
{
    proof {
        lemma_child_index(n, NodeKind::ExprUnary);
        lemma_child_index(n, NodeKind::ExprListParenthesized);
        lemma_child_index(n, NodeKind::ExprPath);
    }
    let u = child_index(n, NodeKind::ExprUnary);
    let t = child_index(n, NodeKind::ExprListParenthesized);
    let p = child_index(n, NodeKind::ExprPath);
    if u >= 0 {
        type_of_unary(n.children@[u])
    } else if t >= 0 {
        type_of_tuple(n.children@[t])
    } else if p >= 0 {
        type_of_path(n.children@[p])
    } else {
        Err("type expression"@)
    }
}

/// The type of a snapshot expression `@T`.
pub open spec fn type_of_unary(n: SyntaxTree) -> Result<TypeShape, Seq<char>>
    decreases n,
{
    proof {
        lemma_child_index(n, NodeKind::ExprPath);
        lemma_child_index(n, NodeKind::ExprListParenthesized);
        lemma_child_index(n, NodeKind::ExprUnary);
    }
    let p = child_index(n, NodeKind::ExprPath);
    let t = child_index(n, NodeKind::ExprListParenthesized);
    let u = child_index(n, NodeKind::ExprUnary);
    if child_index(n, NodeKind::TerminalAt) < 0 {
        Err("TerminalAt"@)
    } else {
        let inner = if p >= 0 {
            type_of_path(n.children@[p])
        } else if t >= 0 {
            type_of_tuple(n.children@[t])
        } else if u >= 0 {
            type_of_unary(n.children@[u])
        } else {
            Err("type expression"@)
        };
        match inner {
            Ok(s) => Ok(TypeShape::Reference(Box::new(s))),
            Err(e) => Err(e),
        }
    }
}

/// The type of a parenthesized list of types.
pub open spec fn type_of_tuple(n: SyntaxTree) -> Result<TypeShape, Seq<char>>
    decreases n,
{
    proof {
        lemma_child_index(n, NodeKind::ExprList);
    }
    let l = child_index(n, NodeKind::ExprList);
    if l < 0 {
        Err("ExprList"@)
    } else {
        match type_of_list(n.children@[l].children@, false) {
            Ok(items) => Ok(TypeShape::Tuple(items)),
            Err(e) => Err(e),
        }
    }
}

/// The type of a path: its first segment, with its generic arguments if it has any.
pub open spec fn type_of_path(n: SyntaxTree) -> Result<TypeShape, Seq<char>>
    decreases n,
{
    proof {
        lemma_child_index(n, NodeKind::ExprPathInner);
    }
    let pi = child_index(n, NodeKind::ExprPathInner);
    if pi < 0 {
        Err("ExprPathInner"@)
    } else {
        let inner = n.children@[pi];
        proof {
            lemma_child_index(inner, NodeKind::PathSegmentSimple);
            lemma_child_index(inner, NodeKind::PathSegmentWithGenericArgs);
        }
        let s = child_index(inner, NodeKind::PathSegmentSimple);
        let g = child_index(inner, NodeKind::PathSegmentWithGenericArgs);
        if s >= 0 {
            Ok(TypeShape::Path(inner.children@[s].text@, Seq::empty()))
        } else if g < 0 {
            Err("PathSegment"@)
        } else {
            let seg = inner.children@[g];
            proof {
                lemma_child_index(seg, NodeKind::TerminalIdentifier);
                lemma_child_index(seg, NodeKind::GenericArgs);
            }
            let id = child_index(seg, NodeKind::TerminalIdentifier);
            let ga = child_index(seg, NodeKind::GenericArgs);
            if id < 0 {
                Err("TerminalIdentifier"@)
            } else if ga < 0 {
                Err("GenericArgs"@)
            } else {
                let args_node = seg.children@[ga];
                proof {
                    lemma_child_index(args_node, NodeKind::GenericArgList);
                }
                let gl = child_index(args_node, NodeKind::GenericArgList);
                if gl < 0 {
                    Err("GenericArgList"@)
                } else {
                    match type_of_list(args_node.children@[gl].children@, true) {
                        Ok(args) => Ok(TypeShape::Path(seg.children@[id].text@, args)),
                        Err(e) => Err(e),
                    }
                }
            }
        }
    }
}

/// The types listed among `ts`: in a generic argument list the unnamed
/// arguments, elsewhere the paths, tuples and snapshots; other nodes (the
/// separators) are skipped.
pub open spec fn type_of_list(ts: Seq<SyntaxTree>, generic: bool) -> Result<Seq<TypeShape>, Seq<char>>
    decreases ts,
{
    if ts.len() == 0 {
        Ok(Seq::empty())
    } else {
        match type_of_list(ts.subrange(0, ts.len() - 1), generic) {
            Err(e) => Err(e),
            Ok(prefix) => {
                let c = ts[ts.len() - 1];
                let item = if generic {
                    if c.kind == NodeKind::GenericArgUnnamed {
                        Some(type_of_holder(c))
                    } else {
                        None
                    }
                } else if c.kind == NodeKind::ExprPath {
                    Some(type_of_path(c))
                } else if c.kind == NodeKind::ExprListParenthesized {
                    Some(type_of_tuple(c))
                } else if c.kind == NodeKind::ExprUnary {
                    Some(type_of_unary(c))
                } else {
                    None
                };
                match item {
                    None => Ok(prefix),
                    Some(Err(e)) => Err(e),
                    Some(Ok(x)) => Ok(prefix.push(x)),
                }
            },
        }
    }
}

/// An error among the first `k` nodes is the error of the whole list.
proof fn lemma_type_of_list_prefix_err(ts: Seq<SyntaxTree>, generic: bool, k: int)
    requires
        0 <= k <= ts.len(),
        type_of_list(ts.subrange(0, k), generic) is Err,
    ensures
        type_of_list(ts, generic) == type_of_list(ts.subrange(0, k), generic),
    decreases ts.len() - k,
{
    if k < ts.len() {
        assert(ts.subrange(0, k + 1).subrange(0, k) =~= ts.subrange(0, k));
        lemma_type_of_list_prefix_err(ts, generic, k + 1);
    } else {
        assert(ts.subrange(0, k) =~= ts);
    }
}

pub open spec fn shape_of(t: TypeRef) -> TypeShape {
    t.shape()
}

pub open spec fn shapes_of(ts: Vec<TypeRef>) -> Seq<TypeShape> {
    ts@.map_values(|t: TypeRef| t.shape())
}

// ---------------------------------------------------------------------------
// Reading type expressions
// ---------------------------------------------------------------------------

/// The type held by a type clause, a return type clause or a generic argument.
pub fn get_type_from_type_clause_node(node: &SyntaxTree) -> (r: Result<TypeRef, Src5Error>)
    ensures
        read_matches(r, type_of_holder(*node), |t: TypeRef| shape_of(t)),
    decreases *node,
{
    proof {
        lemma_child_index(*node, NodeKind::ExprUnary);
        lemma_child_index(*node, NodeKind::ExprListParenthesized);
        lemma_child_index(*node, NodeKind::ExprPath);
    }
    if let Some(unary) = find_children(node, NodeKind::ExprUnary) {
        get_type_from_expr_unary_node(unary)
    } else if let Some(tuple) = find_children(node, NodeKind::ExprListParenthesized) {
        get_type_from_expr_tuple_node(tuple)
    } else if let Some(path) = find_children(node, NodeKind::ExprPath) {
        get_type_from_expr_path_node(path)
    } else {
        Err(missing("type expression"))
    }
}

/// The type of a snapshot expression `@T`.
pub fn get_type_from_expr_unary_node(node: &SyntaxTree) -> (r: Result<TypeRef, Src5Error>)
    ensures
        read_matches(r, type_of_unary(*node), |t: TypeRef| shape_of(t)),
    decreases *node,
{
    proof {
        lemma_child_index(*node, NodeKind::ExprUnary);
        lemma_child_index(*node, NodeKind::ExprListParenthesized);
        lemma_child_index(*node, NodeKind::ExprPath);
    }
    if find_children(node, NodeKind::TerminalAt).is_none() {
        return Err(missing("TerminalAt"));
    }
    let inner = if let Some(path) = find_children(node, NodeKind::ExprPath) {
        get_type_from_expr_path_node(path)
    } else if let Some(tuple) = find_children(node, NodeKind::ExprListParenthesized) {
        get_type_from_expr_tuple_node(tuple)
    } else if let Some(unary) = find_children(node, NodeKind::ExprUnary) {
        get_type_from_expr_unary_node(unary)
    } else {
        Err(missing("type expression"))
    };
    match inner {
        Ok(t) => Ok(TypeRef::Reference(Box::new(t))),
        Err(e) => Err(e),
    }
}

/// The type of a parenthesized list of types.
pub fn get_type_from_expr_tuple_node(node: &SyntaxTree) -> (r: Result<TypeRef, Src5Error>)
    ensures
        read_matches(r, type_of_tuple(*node), |t: TypeRef| shape_of(t)),
    decreases *node,
{
    proof {
        lemma_child_index(*node, NodeKind::ExprList);
    }
    let list = match find_children(node, NodeKind::ExprList) {
        Some(l) => l,
        None => {
            return Err(missing("ExprList"));
        },
    };
    match get_types_from_list(&list.children, false) {
        Ok(items) => {
            proof {
                lemma_tuple_shape(items);
            }
            Ok(TypeRef::Tuple(items))
        },
        Err(e) => Err(e),
    }
}

/// The type of a path: its first segment, with its generic arguments if it has any.
pub fn get_type_from_expr_path_node(node: &SyntaxTree) -> (r: Result<TypeRef, Src5Error>)
    ensures
        read_matches(r, type_of_path(*node), |t: TypeRef| shape_of(t)),
    decreases *node,
{
    proof {
        lemma_child_index(*node, NodeKind::ExprPathInner);
    }
    let inner = match find_children(node, NodeKind::ExprPathInner) {
        Some(i) => i,
        None => {
            return Err(missing("ExprPathInner"));
        },
    };
    proof {
        lemma_child_index(*inner, NodeKind::PathSegmentSimple);
        lemma_child_index(*inner, NodeKind::PathSegmentWithGenericArgs);
    }
    if let Some(simple) = find_children(inner, NodeKind::PathSegmentSimple) {
        let args: Vec<TypeRef> = Vec::new();
        let name = simple.text.clone();
        proof {
            lemma_path_shape(name, args);
            assert(args@.map_values(|a: TypeRef| a.shape()) =~= Seq::<TypeShape>::empty());
        }
        return Ok(TypeRef::Path(name, args));
    }
    let segment = match find_children(inner, NodeKind::PathSegmentWithGenericArgs) {
        Some(s) => s,
        None => {
            return Err(missing("PathSegment"));
        },
    };
    proof {
        lemma_child_index(*segment, NodeKind::TerminalIdentifier);
        lemma_child_index(*segment, NodeKind::GenericArgs);
    }
    let id = match find_children(segment, NodeKind::TerminalIdentifier) {
        Some(i) => i,
        None => {
            return Err(missing("TerminalIdentifier"));
        },
    };
    let generic_args = match find_children(segment, NodeKind::GenericArgs) {
        Some(g) => g,
        None => {
            return Err(missing("GenericArgs"));
        },
    };
    proof {
        lemma_child_index(*generic_args, NodeKind::GenericArgList);
    }
    let list = match find_children(generic_args, NodeKind::GenericArgList) {
        Some(l) => l,
        None => {
            return Err(missing("GenericArgList"));
        },
    };
    match get_types_from_list(&list.children, true) {
        Ok(args) => {
            let name = id.text.clone();
            proof {
                lemma_path_shape(name, args);
            }
            Ok(TypeRef::Path(name, args))
        },
        Err(e) => Err(e),
    }
}

/// The types listed among `ts` (see `type_of_list`).
fn get_types_from_list(ts: &Vec<SyntaxTree>, generic: bool) -> (r: Result<Vec<TypeRef>, Src5Error>)
    ensures
        read_matches(r, type_of_list(ts@, generic), |v: Vec<TypeRef>| shapes_of(v)),
    decreases ts@,
{
    let mut out: Vec<TypeRef> = Vec::new();
    let mut i: usize = 0;
    proof {
        assert(ts@.subrange(0, 0) =~= Seq::<SyntaxTree>::empty());
        assert(shapes_of(out) =~= Seq::<TypeShape>::empty());
    }
    while i < ts.len()
        invariant
            i <= ts@.len(),
            type_of_list(ts@.subrange(0, i as int), generic) == Ok::<Seq<TypeShape>, Seq<char>>(
                shapes_of(out),
            ),
        decreases ts@.len() - i,
    {
        proof {
            assert(ts@.subrange(0, i + 1).subrange(0, i as int) =~= ts@.subrange(0, i as int));
            assert(ts@.subrange(0, i + 1)[i as int] == ts@[i as int]);
            assert(decreases_to!(ts@ => ts@[i as int]));
        }
        let c = &ts[i];
        let item = if generic {
            if c.kind == NodeKind::GenericArgUnnamed {
                Some(get_type_from_type_clause_node(c))
            } else {
                None
            }
        } else if c.kind == NodeKind::ExprPath {
            Some(get_type_from_expr_path_node(c))
        } else if c.kind == NodeKind::ExprListParenthesized {
            Some(get_type_from_expr_tuple_node(c))
        } else if c.kind == NodeKind::ExprUnary {
            Some(get_type_from_expr_unary_node(c))
        } else {
            None
        };
        match item {
            None => {},
            Some(Err(e)) => {
                proof {
                    lemma_type_of_list_prefix_err(ts@, generic, i + 1);
                }
                return Err(e);
            },
            Some(Ok(t)) => {
                let ghost prev = shapes_of(out);
                let ghost ts_shape = t.shape();
                out.push(t);
                proof {
                    assert(shapes_of(out) =~= prev.push(ts_shape));
                }
            },
        }
        i += 1;
    }
    proof {
        assert(ts@.subrange(0, ts@.len() as int) =~= ts@);
    }
    Ok(out)
}

} // verus!
