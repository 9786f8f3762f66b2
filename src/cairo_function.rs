use vstd::prelude::*;

use crate::src5_type::{
    canon_each, canonicalize_each, join, join_parts, result_matches, src5_type,
};
use crate::syntax::{NodeKind, SyntaxTree};
use crate::type_syntax::{get_type_from_type_clause_node, shapes_of, type_of_holder};
use crate::types::{CairoEnum, CairoStruct, Src5Error, TypeRef, TypeShape};
use crate::utils::{
    child_index, find_children, gather, lemma_gather_prefix_err, lemma_gather_step, missing,
    read_matches,
};

verus! {

/// A function of a non-generic trait: its name, the types of its parameters
/// in order, and its return type if it declares one.
#[derive(Debug)]
pub struct CairoNonGenericFunction {
    pub name: String,
    pub inputs_types: Vec<TypeRef>,
    pub return_type: Option<TypeRef>,
}

/// The extended function selector signature of `f`:
/// `name(A,B,...)` with the canonical parameter types, followed by `->R`
/// with the canonical return type where one is declared.
pub open spec fn efs(structs: Seq<CairoStruct>, enums: Seq<CairoEnum>, f: CairoNonGenericFunction) -> Result<
    Seq<char>,
    Src5Error,
> {
    match canon_each(structs, enums, Map::empty(), Set::empty(), f.inputs_types@) {
        Err(e) => Err(e),
        Ok(params) => {
            let head = f.name@ + "("@ + join(params) + ")"@;
            match f.return_type {
                None => Ok(head),
                Some(rt) => match src5_type(structs, enums, rt) {
                    Ok(r) => Ok(head + "->"@ + r),
                    Err(e) => Err(e),
                },
            }
        },
    }
}

impl CairoNonGenericFunction {
    pub fn new(name: String, inputs_types: Vec<TypeRef>, return_type: Option<TypeRef>) -> (r:
        CairoNonGenericFunction)
        ensures
            r.name == name,
            r.inputs_types == inputs_types,
            r.return_type == return_type,
    {
        CairoNonGenericFunction { name, inputs_types, return_type }
    }

    /// The extended function selector signature of this function.
    pub fn get_efs_signature(&self, cairo_structs: &[CairoStruct], cairo_enums: &[CairoEnum]) -> (r:
        Result<String, Src5Error>)
        ensures
            result_matches(r, efs(cairo_structs@, cairo_enums@, *self)),
    {
        let params = match canonicalize_each(&self.inputs_types, cairo_structs, cairo_enums) {
            Err(e) => {
                return Err(e);
            },
            Ok(p) => p,
        };
        let mut signature = String::from_str(self.name.as_str());
        signature.append("(");
        signature.append(join_parts(&params).as_str());
        signature.append(")");
        match &self.return_type {
            None => Ok(signature),
            Some(rt) => match rt.get_src5_type(cairo_structs, cairo_enums) {
                Err(e) => Err(e),
                Ok(r) => {
                    signature.append("->");
                    signature.append(r.as_str());
                    Ok(signature)
                },
            },
        }
    }
}


/// The name, parameter types and return type of a function.
pub open spec fn function_view(f: CairoNonGenericFunction) -> (Seq<char>, Seq<TypeShape>, Option<TypeShape>) {
    (
        f.name@,
        shapes_of(f.inputs_types),
        match f.return_type {
            Some(t) => Some(t.shape()),
            None => None,
        },
    )
}

pub open spec fn function_views(v: Seq<CairoNonGenericFunction>) -> Seq<(Seq<char>, Seq<TypeShape>, Option<TypeShape>)> {
    v.map_values(|func: CairoNonGenericFunction| function_view(func))
}

/// What a child of a parameter list contributes: the type of a parameter that declares one.
pub open spec fn input_pick(p: SyntaxTree) -> Option<Result<TypeShape, Seq<char>>> {
    let tc = child_index(p, NodeKind::TypeClause);
    if p.kind == NodeKind::Param && tc >= 0 {
        Some(type_of_holder(p.children@[tc]))
    } else {
        None
    }
}

/// `input_pick` as a function value.
pub open spec fn input_picker() -> spec_fn(SyntaxTree) -> Option<Result<TypeShape, Seq<char>>> {
    |c: SyntaxTree| input_pick(c)
}

/// A function declared in a trait: its name, its parameter types and its return type.
pub open spec fn function_of(c: SyntaxTree) -> Result<(Seq<char>, Seq<TypeShape>, Option<TypeShape>), Seq<char>> {
    let d = child_index(c, NodeKind::FunctionDeclaration);
    if d < 0 {
        Err("FunctionDeclaration"@)
    } else {
        let decl = c.children@[d];
        let id = child_index(decl, NodeKind::TerminalIdentifier);
        let s = child_index(decl, NodeKind::FunctionSignature);
        if id < 0 {
            Err("TerminalIdentifier"@)
        } else if s < 0 {
            Err("FunctionSignature"@)
        } else {
            let sig = decl.children@[s];
            let pl = child_index(sig, NodeKind::ParamList);
            let rt = child_index(sig, NodeKind::ReturnTypeClause);
            if pl < 0 {
                Err("ParamList"@)
            } else {
                match gather(sig.children@[pl].children@, input_picker()) {
                    Err(e) => Err(e),
                    Ok(inputs) => if rt < 0 {
                        Ok((decl.children@[id].text@, inputs, None))
                    } else {
                        match type_of_holder(sig.children@[rt]) {
                            Err(e) => Err(e),
                            Ok(r) => Ok((decl.children@[id].text@, inputs, Some(r))),
                        }
                    },
                }
            }
        }
    }
}

/// What an item of a trait body contributes: a function.
pub open spec fn function_pick(c: SyntaxTree) -> Option<Result<(Seq<char>, Seq<TypeShape>, Option<TypeShape>), Seq<char>>> {
    if c.kind == NodeKind::TraitItemFunction {
        Some(function_of(c))
    } else {
        None
    }
}

/// `function_pick` as a function value.
pub open spec fn function_picker() -> spec_fn(SyntaxTree) -> Option<Result<(Seq<char>, Seq<TypeShape>, Option<TypeShape>), Seq<char>>> {
    |c: SyntaxTree| function_pick(c)
}

/// The functions of a trait body, in order.
pub open spec fn functions_of_body(body: SyntaxTree) -> Result<Seq<(Seq<char>, Seq<TypeShape>, Option<TypeShape>)>, Seq<char>> {
    let l = child_index(body, NodeKind::TraitItemList);
    if l < 0 {
        Err("TraitItemList"@)
    } else {
        gather(body.children@[l].children@, function_picker())
    }
}

/// The types of the parameters of a parameter list.
fn get_param_types(list: &SyntaxTree) -> (r: Result<Vec<TypeRef>, Src5Error>)
    ensures
        read_matches(r, gather(list.children@, input_picker()), |v: Vec<TypeRef>| shapes_of(v)),
{
    let ghost f = input_picker();
    let mut out: Vec<TypeRef> = Vec::new();
    let mut i: usize = 0;
    proof {
        assert(list.children@.subrange(0, 0) =~= Seq::<SyntaxTree>::empty());
        assert(shapes_of(out) =~= Seq::<TypeShape>::empty());
    }
    while i < list.children.len()
        invariant
            i <= list.children@.len(),
            f == input_picker(),
            gather(list.children@.subrange(0, i as int), f) == Ok::<Seq<TypeShape>, Seq<char>>(
                shapes_of(out),
            ),
        decreases list.children@.len() - i,
    {
        proof {
            lemma_gather_step(list.children@, f, i as int);
        }
        let p = &list.children[i];
        if p.kind == NodeKind::Param {
            if let Some(clause) = find_children(p, NodeKind::TypeClause) {
                match get_type_from_type_clause_node(clause) {
                    Err(e) => {
                        proof {
                            lemma_gather_prefix_err(list.children@, f, i + 1);
                        }
                        return Err(e);
                    },
                    Ok(t) => {
                        let ghost prev = shapes_of(out);
                        let ghost ts = t.shape();
                        out.push(t);
                        proof {
                            assert(shapes_of(out) =~= prev.push(ts));
                        }
                    },
                }
            }
        }
        i += 1;
    }
    proof {
        assert(list.children@.subrange(0, list.children@.len() as int) =~= list.children@);
    }
    Ok(out)
}

/// Reads one function item of a trait body.
pub fn get_function_from_item(item: &SyntaxTree) -> (r: Result<CairoNonGenericFunction, Src5Error>)
    ensures
        read_matches(r, function_of(*item), |func: CairoNonGenericFunction| function_view(func)),
{
    let decl = match find_children(item, NodeKind::FunctionDeclaration) {
        Some(d) => d,
        None => {
            return Err(missing("FunctionDeclaration"));
        },
    };
    let id = match find_children(decl, NodeKind::TerminalIdentifier) {
        Some(i) => i,
        None => {
            return Err(missing("TerminalIdentifier"));
        },
    };
    let signature = match find_children(decl, NodeKind::FunctionSignature) {
        Some(s) => s,
        None => {
            return Err(missing("FunctionSignature"));
        },
    };
    let params = match find_children(signature, NodeKind::ParamList) {
        Some(p) => p,
        None => {
            return Err(missing("ParamList"));
        },
    };
    let inputs_types = match get_param_types(params) {
        Ok(v) => v,
        Err(e) => {
            return Err(e);
        },
    };
    let return_type = match find_children(signature, NodeKind::ReturnTypeClause) {
        None => None,
        Some(clause) => match get_type_from_type_clause_node(clause) {
            Ok(t) => Some(t),
            Err(e) => {
                return Err(e);
            },
        },
    };
    Ok(CairoNonGenericFunction::new(id.text.clone(), inputs_types, return_type))
}

/// The functions of a trait body, in order.
pub fn get_functions_from_trait_body(trait_body: &SyntaxTree) -> (r: Result<
    Vec<CairoNonGenericFunction>,
    Src5Error,
>)
    ensures
        read_matches(r, functions_of_body(*trait_body), |v: Vec<CairoNonGenericFunction>| function_views(v@)),
{
    let items = match find_children(trait_body, NodeKind::TraitItemList) {
        Some(l) => l,
        None => {
            return Err(missing("TraitItemList"));
        },
    };
    let ghost f = function_picker();
    let mut out: Vec<CairoNonGenericFunction> = Vec::new();
    let mut i: usize = 0;
    proof {
        assert(items.children@.subrange(0, 0) =~= Seq::<SyntaxTree>::empty());
        assert(function_views(out@) =~= Seq::empty());
    }
    while i < items.children.len()
        invariant
            i <= items.children@.len(),
            f == function_picker(),
            child_index(*trait_body, NodeKind::TraitItemList) >= 0,
            *items == trait_body.children@[child_index(*trait_body, NodeKind::TraitItemList)],
            gather(items.children@.subrange(0, i as int), f) == Ok::<Seq<(Seq<char>, Seq<TypeShape>, Option<TypeShape>)>, Seq<char>>(
                function_views(out@),
            ),
        decreases items.children@.len() - i,
    {
        proof {
            lemma_gather_step(items.children@, f, i as int);
        }
        if items.children[i].kind == NodeKind::TraitItemFunction {
            match get_function_from_item(&items.children[i]) {
                Err(e) => {
                    proof {
                        lemma_gather_prefix_err(items.children@, f, i + 1);
                    }
                    return Err(e);
                },
                Ok(func) => {
                    let ghost prev = function_views(out@);
                    let ghost fv = function_view(func);
                    out.push(func);
                    proof {
                        assert(function_views(out@) =~= prev.push(fv));
                    }
                },
            }
        }
        i += 1;
    }
    proof {
        assert(items.children@.subrange(0, items.children@.len() as int) =~= items.children@);
    }
    Ok(out)
}

} // verus!
