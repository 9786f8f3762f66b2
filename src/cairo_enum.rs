use vstd::prelude::*;

use crate::declaration::{generics_of, get_generics_from_item, get_member_types, member_picker};
use crate::syntax::{
    classified, get_syntax_tree, listing, parse_listing, preorder, subtree_end, NodeKind, SyntaxTree,
};
use crate::type_syntax::shapes_of;
use crate::types::{names_view, CairoEnum, Src5Error, TypeShape};
use crate::utils::{
    child_index, find_children, gather, lemma_gather_append, lemma_gather_prefix_err, lemma_gather_single, lemma_walked,
    missing, read_matches, walked,
};

verus! {

/// The name, generic parameters and member types of a declaration.
pub open spec fn enum_view(s: CairoEnum) -> (Seq<char>, Seq<Seq<char>>, Seq<TypeShape>) {
    (s.name@, names_view(s.generics@), shapes_of(s.variants_types))
}

pub open spec fn enum_views(v: Seq<CairoEnum>) -> Seq<(Seq<char>, Seq<Seq<char>>, Seq<TypeShape>)> {
    v.map_values(|s: CairoEnum| enum_view(s))
}

/// An enum declaration read from the tree: its name, its generic parameters and the types of its variants that declare one.
pub open spec fn enum_of(n: SyntaxTree) -> Result<(Seq<char>, Seq<Seq<char>>, Seq<TypeShape>), Seq<char>> {
    let id = child_index(n, NodeKind::TerminalIdentifier);
    let ml = child_index(n, NodeKind::VariantList);
    if id < 0 {
        Err("TerminalIdentifier"@)
    } else if ml < 0 {
        Err("VariantList"@)
    } else {
        match gather(n.children@[ml].children@, member_picker(true)) {
            Err(e) => Err(e),
            Ok(ms) => Ok((n.children@[id].text@, generics_of(n), ms)),
        }
    }
}

/// What a node contributes to the enum declarations of a tree.
pub open spec fn enum_pick(n: SyntaxTree) -> Option<Result<(Seq<char>, Seq<Seq<char>>, Seq<TypeShape>), Seq<char>>> {
    if n.kind == NodeKind::ItemEnum {
        Some(enum_of(n))
    } else {
        None
    }
}

/// `enum_pick` as a function value.
pub open spec fn enum_picker() -> spec_fn(SyntaxTree) -> Option<Result<(Seq<char>, Seq<Seq<char>>, Seq<TypeShape>), Seq<char>>> {
    |c: SyntaxTree| enum_pick(c)
}

/// The enum declarations of a tree, in preorder.
pub open spec fn enums_in(t: SyntaxTree) -> Result<Seq<(Seq<char>, Seq<Seq<char>>, Seq<TypeShape>)>, Seq<char>> {
    gather(preorder(t), enum_picker())
}

/// Reads one enum item.
pub fn get_cairo_enum_from_item(node: &SyntaxTree) -> (r: Result<CairoEnum, Src5Error>)
    ensures
        read_matches(r, enum_of(*node), |s: CairoEnum| enum_view(s)),
{
    let id = match find_children(node, NodeKind::TerminalIdentifier) {
        Some(i) => i,
        None => {
            return Err(missing("TerminalIdentifier"));
        },
    };
    let list = match find_children(node, NodeKind::VariantList) {
        Some(l) => l,
        None => {
            return Err(missing("VariantList"));
        },
    };
    let types = match get_member_types(list, true) {
        Ok(m) => m,
        Err(e) => {
            return Err(e);
        },
    };
    let generics = get_generics_from_item(node);
    Ok(CairoEnum { name: id.text.clone(), generics, variants_types: types })
}

/// Walks `t` in preorder, appending what the enum declarations it holds to `out`.
fn collect_enums(t: &SyntaxTree, out: &mut Vec<CairoEnum>) -> (r: Result<(), Src5Error>)
    ensures
        match gather(preorder(*t), enum_picker()) {
            Ok(q) => r is Ok && enum_views(final(out)@) == enum_views(old(out)@) + q,
            Err(e) => r matches Err(x) && x is StructuralMismatch && x->StructuralMismatch_0@ == e,
        },
    decreases *t,
{
    let ghost f = enum_picker();
    let ghost start = enum_views(out@);
    proof {
        lemma_walked(*t, 0);
        assert(walked(*t, 0) =~= seq![*t]);
        lemma_gather_single(*t, f);
    }
    if t.kind == NodeKind::ItemEnum {
        match get_cairo_enum_from_item(t) {
            Err(e) => {
                proof {
                    lemma_gather_prefix_err(preorder(*t), f, 1);
                }
                return Err(e);
            },
            Ok(x) => {
                let ghost xv = enum_views(seq![x]);
                out.push(x);
                proof {
                    assert(enum_views(out@) =~= start + xv);
                }
            },
        }
    } else {
        proof {
            assert(enum_views(out@) =~= start + Seq::empty());
        }
    }
    let mut i: usize = 0;
    while i < t.children.len()
        invariant
            i <= t.children@.len(),
            f == enum_picker(),
            start == enum_views(old(out)@),
            gather(walked(*t, i as int), f) is Ok,
            enum_views(out@) == start + gather(walked(*t, i as int), f)->Ok_0,
        decreases t.children@.len() - i,
    {
        proof {
            lemma_walked(*t, i as int);
            lemma_walked(*t, i + 1);
            lemma_gather_append(walked(*t, i as int), preorder(t.children@[i as int]), f);
        }
        let ghost before = enum_views(out@);
        match collect_enums(&t.children[i], out) {
            Err(e) => {
                proof {
                    lemma_gather_prefix_err(preorder(*t), f, walked(*t, i + 1).len() as int);
                }
                return Err(e);
            },
            Ok(()) => {},
        }
        proof {
            let q = gather(walked(*t, i as int), f)->Ok_0;
            let q2 = gather(preorder(t.children@[i as int]), f)->Ok_0;
            assert(start + q + q2 =~= start + (q + q2));
        }
        i += 1;
    }
    proof {
        lemma_walked(*t, t.children@.len() as int);
    }
    Ok(())
}

/// The enum declarations of a syntax tree, in preorder.
pub fn get_cairo_enums_no_corelib(syntax_tree: &SyntaxTree) -> (r: Result<Vec<CairoEnum>, Src5Error>)
    ensures
        read_matches(r, enums_in(*syntax_tree), |v: Vec<CairoEnum>| enum_views(v@)),
{
    let mut out: Vec<CairoEnum> = Vec::new();
    proof {
        assert(enum_views(out@) =~= Seq::empty());
    }
    match collect_enums(syntax_tree, &mut out) {
        Err(e) => Err(e),
        Ok(()) => {
            proof {
                let q = enums_in(*syntax_tree)->Ok_0;
                assert(Seq::<(Seq<char>, Seq<Seq<char>>, Seq<TypeShape>)>::empty() + q =~= q);
            }
            Ok(out)
        },
    }
}

/// The enums that every source may use without declaring them.
pub const CORELIB_ENUMS: &'static str = "
enum bool {
    True: (),
    False: (),
}
enum U128sFromFelt252Result {
    Narrow: u128,
    Wide: (u128, u128),
}
enum never {}
enum FromNullableResult<T> {
    Null: (),
    NotNull: Box<T>,
}
enum Option<T> {
    Some: T,
    None: (),
}
enum PanicResult<T> {
    Ok: T,
    Err: (Panic, Array<felt252>),
}
enum Result<T, E> {
    Ok: T,
    Err: E,
}
enum IsZeroResult<T> {
    Zero: (),
    NonZero: NonZero<T>,
}
";

/// The built-in enums: the same reading applied to their source text.
pub open spec fn corelib_enums_are(v: Seq<(Seq<char>, Seq<Seq<char>>, Seq<TypeShape>)>) -> bool {
    exists|t: SyntaxTree|
        listing(t) == classified(parse_listing(CORELIB_ENUMS@)->Some_0) && enums_in(t) == Ok::<
            Seq<(Seq<char>, Seq<Seq<char>>, Seq<TypeShape>)>,
            Seq<char>,
        >(v)
}

/// Reading the built-in enums fails: their text does not parse into one
/// tree, or the tree holds a malformed declaration.
pub open spec fn corelib_enums_fail() -> bool {
    ||| parse_listing(CORELIB_ENUMS@) is None
    ||| subtree_end(
        parse_listing(CORELIB_ENUMS@)->Some_0.map_values(|n: (Seq<char>, Seq<char>, nat)| n.2),
        0,
    ) != Some(parse_listing(CORELIB_ENUMS@)->Some_0.len() as int)
    ||| exists|t: SyntaxTree|
        listing(t) == classified(parse_listing(CORELIB_ENUMS@)->Some_0) && #[trigger] enums_in(t) is Err
}

/// The built-in enums.
pub fn get_corelib_enums() -> (r: Result<Vec<CairoEnum>, Src5Error>)
    ensures
        r matches Ok(v) ==> corelib_enums_are(enum_views(v@)),
        r is Err ==> corelib_enums_fail(),
{
    let tree = match get_syntax_tree(CORELIB_ENUMS) {
        Ok(t) => t,
        Err(e) => {
            return Err(e);
        },
    };
    let r = get_cairo_enums_no_corelib(&tree);
    proof {
        if r is Err {
            assert(listing(tree) == classified(parse_listing(CORELIB_ENUMS@)->Some_0) && enums_in(tree) is Err);
        }
    }
    r
}

/// The enums of a syntax tree in preorder, followed by the built-in ones.
pub fn get_cairo_enums(syntax_tree: &SyntaxTree) -> (r: Result<Vec<CairoEnum>, Src5Error>)
    ensures
        r matches Ok(v) ==> exists|own: Seq<(Seq<char>, Seq<Seq<char>>, Seq<TypeShape>)>, builtin: Seq<(Seq<char>, Seq<Seq<char>>, Seq<TypeShape>)>|
            enums_in(*syntax_tree) == Ok::<Seq<(Seq<char>, Seq<Seq<char>>, Seq<TypeShape>)>, Seq<char>>(own) && corelib_enums_are(builtin)
                && enum_views(v@) == own + builtin,
        enums_in(*syntax_tree) is Err ==> (r matches Err(e) && e is StructuralMismatch),
        r is Err ==> enums_in(*syntax_tree) is Err || corelib_enums_fail(),
{
    let mut own = match get_cairo_enums_no_corelib(syntax_tree) {
        Ok(v) => v,
        Err(e) => {
            return Err(e);
        },
    };
    let mut builtin = match get_corelib_enums() {
        Ok(v) => v,
        Err(e) => {
            return Err(e);
        },
    };
    let ghost own_view = enum_views(own@);
    let ghost builtin_view = enum_views(builtin@);
    own.append(&mut builtin);
    proof {
        assert(enum_views(own@) =~= own_view + builtin_view);
    }
    Ok(own)
}

} // verus!
