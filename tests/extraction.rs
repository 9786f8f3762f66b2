use src5_rs::cairo_enum::get_cairo_enums;
use src5_rs::cairo_struct::{get_cairo_structs, get_cairo_structs_no_corelib};
use src5_rs::cairo_trait::get_non_generic_traits;
use src5_rs::get_ex_fn_sel::{get_extended_function_selector, get_extended_function_selectors};
use src5_rs::selector::{get_interface_id, get_selector_from_signature, Selector};
use src5_rs::syntax::{get_syntax_tree, tree_from_nodes, ParsedNode};
use src5_rs::types::{Src5Error, TypeRef};

fn hex(s: &Selector) -> String {
    let mut out = String::new();
    for d in s.digits.iter().rev() {
        if out.is_empty() {
            if *d != 0 {
                out = format!("{:x}", d);
            }
        } else {
            out.push_str(&format!("{:016x}", d));
        }
    }
    if out.is_empty() {
        out.push('0');
    }
    format!("0x{}", out)
}

fn signatures(source: &str) -> Vec<Vec<String>> {
    let tree = get_syntax_tree(source).unwrap();
    let structs = get_cairo_structs(&tree).unwrap();
    let enums = get_cairo_enums(&tree).unwrap();
    let traits = get_non_generic_traits(&tree).unwrap();
    traits
        .iter()
        .map(|t| {
            get_extended_function_selectors(t, &structs, &enums)
                .unwrap()
                .into_iter()
                .map(|(sig, _)| sig)
                .collect()
        })
        .collect()
}

#[test]
fn selector_of_transfer() {
    let s = get_selector_from_signature("transfer");
    assert_eq!(hex(&s), "0x83afd3f4caedc6eebf44246fe54e38c95e3179a5ec9ea81740eca5b482d12e");
}

#[test]
fn selector_is_written_with_fixed_width() {
    let s = get_selector_from_signature("transfer");
    assert_eq!(
        s.to_hex(),
        "0x0083afd3f4caedc6eebf44246fe54e38c95e3179a5ec9ea81740eca5b482d12e"
    );
    assert_eq!(Selector::zero().to_hex(), format!("0x{}", "0".repeat(64)));
}

#[test]
fn selector_fits_in_250_bits() {
    let s = get_selector_from_signature("supports_interface(felt252)->E((),())");
    assert!(s.digits[3] < (1u64 << 58));
    assert_ne!(s, Selector::zero());
}

#[test]
fn src5_interface_id() {
    let source = "
trait ISRC5 {
    fn supports_interface(interface_id: felt252) -> bool;
}
";
    let tree = get_syntax_tree(source).unwrap();
    let structs = get_cairo_structs(&tree).unwrap();
    let enums = get_cairo_enums(&tree).unwrap();
    let traits = get_non_generic_traits(&tree).unwrap();
    assert_eq!(traits.len(), 1);
    let pairs = get_extended_function_selectors(&traits[0], &structs, &enums).unwrap();
    assert_eq!(pairs[0].0, "supports_interface(felt252)->E((),())");
    let id = traits[0].get_interface_id(&structs, &enums).unwrap();
    assert_eq!(hex(&id), "0x3f918d17e5ee77373b56385708f855659a07f75997f365cf87748628532a055");
    assert_eq!(
        id.to_hex(),
        "0x03f918d17e5ee77373b56385708f855659a07f75997f365cf87748628532a055"
    );
}

#[test]
fn interface_id_ignores_function_order() {
    let a = get_selector_from_signature("a()");
    let b = get_selector_from_signature("b(u8)->u8");
    let c = get_selector_from_signature("c(@(u8,u16))");
    let one = get_interface_id(&vec![a, b, c]);
    let two = get_interface_id(&vec![c, a, b]);
    assert_eq!(one, two);
    assert_ne!(one, a);
    let source_one = "trait T { fn a(); fn b(x: u8) -> u8; }";
    let source_two = "trait T { fn b(x: u8) -> u8; fn a(); }";
    let id = |src: &str| {
        let tree = get_syntax_tree(src).unwrap();
        let traits = get_non_generic_traits(&tree).unwrap();
        traits[0].get_interface_id(&[], &[]).unwrap()
    };
    assert_eq!(id(source_one), id(source_two));
}

#[test]
fn trait_without_functions_has_zero_id() {
    assert_eq!(get_interface_id(&vec![]), Selector::zero());
    let tree = get_syntax_tree("trait Empty {}").unwrap();
    let traits = get_non_generic_traits(&tree).unwrap();
    assert_eq!(traits.len(), 1);
    assert_eq!(traits[0].get_interface_id(&[], &[]), Ok(Selector::zero()));
}

#[test]
fn self_type_not_declared_is_unknown() {
    let tree = get_syntax_tree("trait Foo { fn bar(self: @Foo) -> felt252; }").unwrap();
    let traits = get_non_generic_traits(&tree).unwrap();
    let f = &traits[0].functions[0];
    assert_eq!(f.name, "bar");
    assert_eq!(
        f.get_efs_signature(&[], &[]),
        Err(Src5Error::UnknownType("Foo".to_string()))
    );
    assert!(get_extended_function_selector(f, &[], &[]).is_err());
}

#[test]
fn self_type_declared_as_struct_is_flattened() {
    let source = "
struct Foo { x: felt252 }
trait IFoo { fn bar(self: @Foo) -> felt252; }
";
    assert_eq!(signatures(source), vec![vec!["bar(@(felt252))->felt252".to_string()]]);
}

#[test]
fn generic_traits_are_skipped() {
    let source = "
trait IGen<T> { fn get(self: @T) -> T; }
trait IPlain { fn get() -> u8; }
";
    let tree = get_syntax_tree(source).unwrap();
    let traits = get_non_generic_traits(&tree).unwrap();
    assert_eq!(traits.len(), 1);
    assert_eq!(traits[0].name, "IPlain");
}

#[test]
fn declarations_are_read_from_source() {
    let source = "
struct Point<T> { x: T, y: (T, u8), z: @Array<T> }
enum Choice { Left: u8, Right: Span<felt252>, Nothing }
trait IShapes {
    fn point(p: Point<u16>) -> Choice;
    fn many(a: Array<Point<felt252>>, b: (u8, (u16, u32)));
}
";
    let tree = get_syntax_tree(source).unwrap();
    let own = get_cairo_structs_no_corelib(&tree).unwrap();
    assert_eq!(own.len(), 1);
    assert_eq!(own[0].name, "Point");
    assert_eq!(own[0].generics, vec!["T".to_string()]);
    assert_eq!(own[0].members_types.len(), 3);
    assert_eq!(
        own[0].members_types[2],
        TypeRef::Reference(Box::new(TypeRef::Path(
            "Array".to_string(),
            vec![TypeRef::Path("T".to_string(), vec![])]
        )))
    );
    assert_eq!(
        signatures(source),
        vec![vec![
            "point((u16,(u16,u8),@Array<u16>))->E(u8,(@Array<felt252>))".to_string(),
            "many(Array<(felt252,(felt252,u8),@Array<felt252>)>,(u8,(u16,u32)))".to_string(),
        ]]
    );
}

#[test]
fn unparsable_source_is_a_parse_failure() {
    let r = get_syntax_tree("struct {");
    assert!(matches!(r, Err(Src5Error::ParseFailure(_))));
}

#[test]
fn malformed_listing_is_a_structural_mismatch() {
    let node = |kind: &str, arity: usize| ParsedNode {
        kind: kind.to_string(),
        text: String::new(),
        arity,
    };
    let truncated = vec![node("SyntaxFile", 2), node("ItemList", 0)];
    assert!(matches!(tree_from_nodes(&truncated), Err(Src5Error::StructuralMismatch(_))));
    let trailing = vec![node("SyntaxFile", 0), node("ItemList", 0)];
    assert!(matches!(tree_from_nodes(&trailing), Err(Src5Error::StructuralMismatch(_))));
    let whole = vec![node("SyntaxFile", 1), node("ItemStruct", 0)];
    let tree = tree_from_nodes(&whole).unwrap();
    assert_eq!(tree.children.len(), 1);
}

#[test]
fn struct_without_member_list_is_a_structural_mismatch() {
    let node = |kind: &str, text: &str, arity: usize| ParsedNode {
        kind: kind.to_string(),
        text: text.to_string(),
        arity,
    };
    let listing = vec![
        node("SyntaxFile", "struct S", 1),
        node("ItemStruct", "struct S", 1),
        node("TerminalIdentifier", "S", 0),
    ];
    let tree = tree_from_nodes(&listing).unwrap();
    assert_eq!(
        get_cairo_structs_no_corelib(&tree).map(|v| v.len()),
        Err(Src5Error::StructuralMismatch("MemberList".to_string()))
    );
}
