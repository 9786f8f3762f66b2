use vstd::prelude::*;

use crate::declaration::{generics_of, get_generics_from_item, get_member_types, member_picker};
use crate::syntax::{
    classified, get_syntax_tree, listing, parse_listing, preorder, subtree_end, NodeKind, SyntaxTree,
};
use crate::type_syntax::shapes_of;
use crate::types::{names_view, CairoStruct, Src5Error, TypeShape};
use crate::utils::{
    child_index, find_children, gather, lemma_gather_append, lemma_gather_prefix_err, lemma_gather_single, lemma_walked,
    missing, read_matches, walked,
};

verus! {

/// The name, generic parameters and member types of a declaration.
pub open spec fn struct_view(s: CairoStruct) -> (Seq<char>, Seq<Seq<char>>, Seq<TypeShape>) {
    (s.name@, names_view(s.generics@), shapes_of(s.members_types))
}

pub open spec fn struct_views(v: Seq<CairoStruct>) -> Seq<(Seq<char>, Seq<Seq<char>>, Seq<TypeShape>)> {
    v.map_values(|s: CairoStruct| struct_view(s))
}

/// A struct declaration read from the tree: its name, its generic parameters and the types of its members.
pub open spec fn struct_of(n: SyntaxTree) -> Result<(Seq<char>, Seq<Seq<char>>, Seq<TypeShape>), Seq<char>> {
    let id = child_index(n, NodeKind::TerminalIdentifier);
    let ml = child_index(n, NodeKind::MemberList);
    if id < 0 {
        Err("TerminalIdentifier"@)
    } else if ml < 0 {
        Err("MemberList"@)
    } else {
        match gather(n.children@[ml].children@, member_picker(false)) {
            Err(e) => Err(e),
            Ok(ms) => Ok((n.children@[id].text@, generics_of(n), ms)),
        }
    }
}

/// What a node contributes to the struct declarations of a tree.
pub open spec fn struct_pick(n: SyntaxTree) -> Option<Result<(Seq<char>, Seq<Seq<char>>, Seq<TypeShape>), Seq<char>>> {
    if n.kind == NodeKind::ItemStruct {
        Some(struct_of(n))
    } else {
        None
    }
}

/// `struct_pick` as a function value.
pub open spec fn struct_picker() -> spec_fn(SyntaxTree) -> Option<Result<(Seq<char>, Seq<Seq<char>>, Seq<TypeShape>), Seq<char>>> {
    |c: SyntaxTree| struct_pick(c)
}

/// The struct declarations of a tree, in preorder.
pub open spec fn structs_in(t: SyntaxTree) -> Result<Seq<(Seq<char>, Seq<Seq<char>>, Seq<TypeShape>)>, Seq<char>> {
    gather(preorder(t), struct_picker())
}

/// Reads one struct item.
pub fn get_cairo_struct_from_item(node: &SyntaxTree) -> (r: Result<CairoStruct, Src5Error>)
    ensures
        read_matches(r, struct_of(*node), |s: CairoStruct| struct_view(s)),
{
    let id = match find_children(node, NodeKind::TerminalIdentifier) {
        Some(i) => i,
        None => {
            return Err(missing("TerminalIdentifier"));
        },
    };
    let list = match find_children(node, NodeKind::MemberList) {
        Some(l) => l,
        None => {
            return Err(missing("MemberList"));
        },
    };
    let types = match get_member_types(list, false) {
        Ok(m) => m,
        Err(e) => {
            return Err(e);
        },
    };
    let generics = get_generics_from_item(node);
    Ok(CairoStruct { name: id.text.clone(), generics, members_types: types })
}

/// Walks `t` in preorder, appending what the struct declarations it holds to `out`.
fn collect_structs(t: &SyntaxTree, out: &mut Vec<CairoStruct>) -> (r: Result<(), Src5Error>)
    ensures
        match gather(preorder(*t), struct_picker()) {
            Ok(q) => r is Ok && struct_views(final(out)@) == struct_views(old(out)@) + q,
            Err(e) => r matches Err(x) && x is StructuralMismatch && x->StructuralMismatch_0@ == e,
        },
    decreases *t,
{
    let ghost f = struct_picker();
    let ghost start = struct_views(out@);
    proof {
        lemma_walked(*t, 0);
        assert(walked(*t, 0) =~= seq![*t]);
        lemma_gather_single(*t, f);
    }
    if t.kind == NodeKind::ItemStruct {
        match get_cairo_struct_from_item(t) {
            Err(e) => {
                proof {
                    lemma_gather_prefix_err(preorder(*t), f, 1);
                }
                return Err(e);
            },
            Ok(x) => {
                let ghost xv = struct_views(seq![x]);
                out.push(x);
                proof {
                    assert(struct_views(out@) =~= start + xv);
                }
            },
        }
    } else {
        proof {
            assert(struct_views(out@) =~= start + Seq::empty());
        }
    }
    let mut i: usize = 0;
    while i < t.children.len()
        invariant
            i <= t.children@.len(),
            f == struct_picker(),
            start == struct_views(old(out)@),
            gather(walked(*t, i as int), f) is Ok,
            struct_views(out@) == start + gather(walked(*t, i as int), f)->Ok_0,
        decreases t.children@.len() - i,
    {
        proof {
            lemma_walked(*t, i as int);
            lemma_walked(*t, i + 1);
            lemma_gather_append(walked(*t, i as int), preorder(t.children@[i as int]), f);
        }
        let ghost before = struct_views(out@);
        match collect_structs(&t.children[i], out) {
            Err(e) => {
                proof {
                    lemma_gather_prefix_err(preorder(*t), f, walked(*t, i + 1).len() as int);
                }
                return Err(e);
            },
            Ok(()) => {},
        }
        proof {
            let q = gather(walked(*t, i as int), f)->Ok_0;
            let q2 = gather(preorder(t.children@[i as int]), f)->Ok_0;
            assert(start + q + q2 =~= start + (q + q2));
        }
        i += 1;
    }
    proof {
        lemma_walked(*t, t.children@.len() as int);
    }
    Ok(())
}

/// The struct declarations of a syntax tree, in preorder.
pub fn get_cairo_structs_no_corelib(syntax_tree: &SyntaxTree) -> (r: Result<Vec<CairoStruct>, Src5Error>)
    ensures
        read_matches(r, structs_in(*syntax_tree), |v: Vec<CairoStruct>| struct_views(v@)),
{
    let mut out: Vec<CairoStruct> = Vec::new();
    proof {
        assert(struct_views(out@) =~= Seq::empty());
    }
    match collect_structs(syntax_tree, &mut out) {
        Err(e) => Err(e),
        Ok(()) => {
            proof {
                let q = structs_in(*syntax_tree)->Ok_0;
                assert(Seq::<(Seq<char>, Seq<Seq<char>>, Seq<TypeShape>)>::empty() + q =~= q);
            }
            Ok(out)
        },
    }
}

/// The structs that every source may use without declaring them.
pub const CORELIB_STRUCTS: &'static str = "
struct Span<T> {
    snapshot: @Array<T>
}
struct Call {
    to: ContractAddress,
    selector: felt252,
    calldata: Span<felt252>
}
struct EthAddress {
    address: felt252,
}
struct ExecutionInfo {
    block_info: Box<BlockInfo>,
    tx_info: Box<TxInfo>,
    caller_address: ContractAddress,
    contract_address: ContractAddress,
    entry_point_selector: felt252,
}
struct BlockInfo {
    block_number: u64,
    block_timestamp: u64,
    sequencer_address: ContractAddress,
}
struct TxInfo {
    version: felt252,
    account_contract_address: ContractAddress,
    max_fee: u128,
    signature: Span<felt252>,
    transaction_hash: felt252,
    chain_id: felt252,
    nonce: felt252,
}
struct u256 {
    low: u128,
    high: u128,
}
struct u512 {
    limb0: u128,
    limb1: u128,
    limb2: u128,
    limb3: u128,
}
struct Panic {}
struct PoseidonBuiltinState {
    s0: felt252,
    s1: felt252,
    s2: felt252,
}
struct ByteArray {
    data: Array<bytes31>,
    pending_word: felt252,
    pending_word_len: usize,
}
";

/// The built-in structs: the same reading applied to their source text.
pub open spec fn corelib_structs_are(v: Seq<(Seq<char>, Seq<Seq<char>>, Seq<TypeShape>)>) -> bool {
    exists|t: SyntaxTree|
        listing(t) == classified(parse_listing(CORELIB_STRUCTS@)->Some_0) && structs_in(t) == Ok::<
            Seq<(Seq<char>, Seq<Seq<char>>, Seq<TypeShape>)>,
            Seq<char>,
        >(v)
}

/// Reading the built-in structs fails: their text does not parse into one
/// tree, or the tree holds a malformed declaration.
pub open spec fn corelib_structs_fail() -> bool {
    ||| parse_listing(CORELIB_STRUCTS@) is None
    ||| subtree_end(
        parse_listing(CORELIB_STRUCTS@)->Some_0.map_values(|n: (Seq<char>, Seq<char>, nat)| n.2),
        0,
    ) != Some(parse_listing(CORELIB_STRUCTS@)->Some_0.len() as int)
    ||| exists|t: SyntaxTree|
        listing(t) == classified(parse_listing(CORELIB_STRUCTS@)->Some_0) && #[trigger] structs_in(t) is Err
}

/// The built-in structs.
pub fn get_corelib_structs() -> (r: Result<Vec<CairoStruct>, Src5Error>)
    ensures
        r matches Ok(v) ==> corelib_structs_are(struct_views(v@)),
        r is Err ==> corelib_structs_fail(),
{
    let tree = match get_syntax_tree(CORELIB_STRUCTS) {
        Ok(t) => t,
        Err(e) => {
            return Err(e);
        },
    };
    let r = get_cairo_structs_no_corelib(&tree);
    proof {
        if r is Err {
            assert(listing(tree) == classified(parse_listing(CORELIB_STRUCTS@)->Some_0) && structs_in(tree) is Err);
        }
    }
    r
}

/// The structs of a syntax tree in preorder, followed by the built-in ones.
pub fn get_cairo_structs(syntax_tree: &SyntaxTree) -> (r: Result<Vec<CairoStruct>, Src5Error>)
    ensures
        r matches Ok(v) ==> exists|own: Seq<(Seq<char>, Seq<Seq<char>>, Seq<TypeShape>)>, builtin: Seq<(Seq<char>, Seq<Seq<char>>, Seq<TypeShape>)>|
            structs_in(*syntax_tree) == Ok::<Seq<(Seq<char>, Seq<Seq<char>>, Seq<TypeShape>)>, Seq<char>>(own) && corelib_structs_are(builtin)
                && struct_views(v@) == own + builtin,
        structs_in(*syntax_tree) is Err ==> (r matches Err(e) && e is StructuralMismatch),
        r is Err ==> structs_in(*syntax_tree) is Err || corelib_structs_fail(),
{
    let mut own = match get_cairo_structs_no_corelib(syntax_tree) {
        Ok(v) => v,
        Err(e) => {
            return Err(e);
        },
    };
    let mut builtin = match get_corelib_structs() {
        Ok(v) => v,
        Err(e) => {
            return Err(e);
        },
    };
    let ghost own_view = struct_views(own@);
    let ghost builtin_view = struct_views(builtin@);
    own.append(&mut builtin);
    proof {
        assert(struct_views(own@) =~= own_view + builtin_view);
    }
    Ok(own)
}

} // verus!
