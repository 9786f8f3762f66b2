use src5_rs::cairo_base_type::{get_cairo_base_type_from_name, get_cairo_base_types};
use src5_rs::cairo_enum::get_corelib_enums;
use src5_rs::cairo_function::CairoNonGenericFunction;
use src5_rs::cairo_struct::get_corelib_structs;
use src5_rs::src5_type::{canonicalize, get_replacement_from_name, join_parts};
use src5_rs::types::{CairoEnum, CairoStruct, Src5Error, TypeRef};

fn path(name: &str) -> TypeRef {
    TypeRef::Path(name.to_string(), Vec::new())
}

fn generic(name: &str, args: Vec<TypeRef>) -> TypeRef {
    TypeRef::Path(name.to_string(), args)
}

fn tuple(items: Vec<TypeRef>) -> TypeRef {
    TypeRef::Tuple(items)
}

fn snapshot(inner: TypeRef) -> TypeRef {
    TypeRef::Reference(Box::new(inner))
}

fn strukt(name: &str, generics: &[&str], members: Vec<TypeRef>) -> CairoStruct {
    CairoStruct {
        name: name.to_string(),
        generics: generics.iter().map(|g| g.to_string()).collect(),
        members_types: members,
    }
}

fn enumeration(name: &str, generics: &[&str], variants: Vec<TypeRef>) -> CairoEnum {
    CairoEnum {
        name: name.to_string(),
        generics: generics.iter().map(|g| g.to_string()).collect(),
        variants_types: variants,
    }
}

#[test]
fn struct_members_are_flattened_in_order() {
    let structs = vec![strukt("S", &[], vec![path("felt252"), path("u32")])];
    let r = path("S").get_src5_type(&structs, &[]);
    assert_eq!(r, Ok("(felt252,u32)".to_string()));
}

#[test]
fn enum_variants_are_flattened_with_prefix() {
    let enums = vec![enumeration("E", &[], vec![path("felt252"), tuple(vec![])])];
    let r = path("E").get_src5_type(&[], &enums);
    assert_eq!(r, Ok("E(felt252,())".to_string()));
}

#[test]
fn generic_struct_is_instantiated() {
    let structs = vec![strukt("Wrapper", &["T"], vec![path("T")])];
    let r = generic("Wrapper", vec![path("u32")]).get_src5_type(&structs, &[]);
    assert_eq!(r, Ok("(u32)".to_string()));
}

#[test]
fn snapshot_of_tuple_nests() {
    let r = snapshot(tuple(vec![path("felt252"), path("u128")])).get_src5_type(&[], &[]);
    assert_eq!(r, Ok("@(felt252,u128)".to_string()));
}

#[test]
fn primitive_is_kept_under_any_unrelated_environment() {
    let env = vec![("T".to_string(), "(u8)".to_string())];
    let r = canonicalize(&path("felt252"), &[], &[], &env);
    assert_eq!(r, Ok("felt252".to_string()));
    let r = canonicalize(&path("T"), &[], &[], &env);
    assert_eq!(r, Ok("(u8)".to_string()));
}

#[test]
fn bound_parameter_takes_precedence_over_primitive() {
    let env = vec![("felt252".to_string(), "X".to_string())];
    let r = canonicalize(&path("felt252"), &[], &[], &env);
    assert_eq!(r, Ok("X".to_string()));
}

#[test]
fn canonicalization_is_deterministic() {
    let structs = vec![
        strukt("Pair", &["A", "B"], vec![path("A"), snapshot(path("B"))]),
        strukt("Inner", &[], vec![path("u8"), tuple(vec![path("u16"), path("bool")])]),
    ];
    let enums = vec![enumeration("bool", &[], vec![tuple(vec![]), tuple(vec![])])];
    let t = generic("Pair", vec![path("Inner"), generic("Array", vec![path("felt252")])]);
    let first = t.get_src5_type(&structs, &enums);
    let second = t.get_src5_type(&structs, &enums);
    assert_eq!(first, second);
    assert_eq!(first, Ok("((u8,(u16,E((),()))),@Array<felt252>)".to_string()));
}

#[test]
fn unknown_name_is_reported() {
    let r = path("Foo").get_src5_type(&[], &[]);
    assert_eq!(r, Err(Src5Error::UnknownType("Foo".to_string())));
}

#[test]
fn unknown_argument_is_reported_before_the_name() {
    let r = generic("Nothing", vec![path("Missing")]).get_src5_type(&[], &[]);
    assert_eq!(r, Err(Src5Error::UnknownType("Missing".to_string())));
}

#[test]
fn self_containing_struct_is_reported() {
    let structs = vec![strukt("Node", &[], vec![path("felt252"), generic("Box", vec![path("Node")])])];
    let r = path("Node").get_src5_type(&structs, &[]);
    assert_eq!(r, Err(Src5Error::RecursiveType("Node".to_string())));
}

#[test]
fn missing_generic_argument_leaves_parameter_unbound() {
    let enums = vec![enumeration("Result", &["T", "E"], vec![path("T"), path("E")])];
    let r = generic("Result", vec![path("u8")]).get_src5_type(&[], &enums);
    assert_eq!(r, Err(Src5Error::UnknownType("E".to_string())));
}

#[test]
fn bare_generic_struct_reuses_the_environment() {
    let structs = vec![strukt("Holder", &["T"], vec![path("T")])];
    let env = vec![("T".to_string(), "u64".to_string())];
    let r = canonicalize(&path("Holder"), &structs, &[], &env);
    assert_eq!(r, Ok("(u64)".to_string()));
}

#[test]
fn primitive_with_arguments_keeps_its_name() {
    let r = generic("Array", vec![tuple(vec![path("u8"), path("u8")])]).get_src5_type(&[], &[]);
    assert_eq!(r, Ok("Array<(u8,u8)>".to_string()));
}

#[test]
fn built_in_span_flattens_to_a_snapshot_array() {
    let structs = get_corelib_structs().unwrap();
    let r = generic("Span", vec![path("felt252")]).get_src5_type(&structs, &[]);
    assert_eq!(r, Ok("(@Array<felt252>)".to_string()));
}

#[test]
fn built_in_declarations_are_read() {
    let structs = get_corelib_structs().unwrap();
    let enums = get_corelib_enums().unwrap();
    assert_eq!(structs.len(), 11);
    assert_eq!(enums.len(), 8);
    assert_eq!(structs[0].name, "Span");
    assert_eq!(structs[0].generics, vec!["T".to_string()]);
    let r = path("u256").get_src5_type(&structs, &enums);
    assert_eq!(r, Ok("(u128,u128)".to_string()));
    let r = path("bool").get_src5_type(&structs, &enums);
    assert_eq!(r, Ok("E((),())".to_string()));
    let r = generic("Option", vec![path("u8")]).get_src5_type(&structs, &enums);
    assert_eq!(r, Ok("E(u8,())".to_string()));
    let r = path("never").get_src5_type(&structs, &enums);
    assert_eq!(r, Ok("E()".to_string()));
}

#[test]
fn base_type_table_and_lookup() {
    let table = get_cairo_base_types();
    assert_eq!(table.len(), 40);
    assert_eq!(table[1].name, "felt252");
    let array = get_cairo_base_type_from_name("Array").unwrap();
    assert_eq!(array.name, "Array");
    assert_eq!(array.generics, vec!["T".to_string()]);
    let felt = get_cairo_base_type_from_name("felt252").unwrap();
    assert!(felt.generics.is_empty());
    assert!(get_cairo_base_type_from_name("Foo").is_none());
    assert!(get_cairo_base_type_from_name("u256").is_none());
}

#[test]
fn later_binding_shadows_earlier_one() {
    let env = vec![
        ("T".to_string(), "a".to_string()),
        ("U".to_string(), "b".to_string()),
        ("T".to_string(), "c".to_string()),
    ];
    assert_eq!(get_replacement_from_name("T", &env), Some("c".to_string()));
    assert_eq!(get_replacement_from_name("U", &env), Some("b".to_string()));
    assert_eq!(get_replacement_from_name("V", &env), None);
}

#[test]
fn parts_are_joined_with_commas() {
    assert_eq!(join_parts(&vec![]), "");
    assert_eq!(join_parts(&vec!["a".to_string()]), "a");
    assert_eq!(join_parts(&vec!["a".to_string(), "b".to_string(), "c".to_string()]), "a,b,c");
}

#[test]
fn signature_without_return_type_has_no_arrow() {
    let f = CairoNonGenericFunction::new("ping".to_string(), vec![], None);
    assert_eq!(f.get_efs_signature(&[], &[]), Ok("ping()".to_string()));
    let g = CairoNonGenericFunction::new(
        "pair".to_string(),
        vec![path("u8"), snapshot(path("u16"))],
        Some(tuple(vec![])),
    );
    assert_eq!(g.get_efs_signature(&[], &[]), Ok("pair(u8,@u16)->()".to_string()));
}
