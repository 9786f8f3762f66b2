use vstd::prelude::*;

use crate::lookup::{first_index, is_first, lemma_first_index};

verus! {

/// A primitive type of the language (an extern type of its core library):
/// its name and its generic slots, of which it has none or one.
#[derive(Debug)]
pub struct CairoBaseType {
    pub name: String,
    pub generics: Vec<String>,
}

/// The number of primitive types.
pub const BASE_TYPE_COUNT: usize = 40;

/// The names of the primitive types, in catalog order.
pub open spec fn base_type_names() -> Seq<Seq<char>> {
    seq![
        "bytes31"@,
        "felt252"@,
        "usize"@,
        "Array"@,
        "Nullable"@,
        "Box"@,
        "Felt252Dict"@,
        "SquashedFelt252Dict"@,
        "Felt252DictEntry"@,
        "EcOp"@,
        "EcPoint"@,
        "NonZeroEcPoint"@,
        "EcState"@,
        "GasBuiltin"@,
        "BuiltinCosts"@,
        "Pedersen"@,
        "Poseidon"@,
        "System"@,
        "SyscallResult"@,
        "NonZero"@,
        "u8"@,
        "u16"@,
        "u32"@,
        "u64"@,
        "u128"@,
        "i8"@,
        "i16"@,
        "i32"@,
        "i64"@,
        "i128"@,
        "U128MulGuarantee"@,
        "Bitwise"@,
        "RangeCheck"@,
        "SegmentArena"@,
        "ClassHash"@,
        "Secp256k1Point"@,
        "Secp256r1Point"@,
        "ContractAddress"@,
        "StorageAddress"@,
        "StorageBaseAddress"@,
    ]
}

/// Whether the primitive type at each catalog position takes a generic slot.
pub open spec fn base_type_slots() -> Seq<bool> {
    seq![false, false, false, true, true, true, true, true, true, false, false, false, false, false, false, false, false, false, true, true, false, false, false, false, false, false, false, false, false, false, false, false, false, false, false, false, false, false, false, false]
}

/// Whether `name` is the name of a primitive type.
pub open spec fn is_base_type(name: Seq<char>) -> bool {
    base_type_names().contains(name)
}

/// The generic parameters that a primitive type with or without a slot declares.
pub open spec fn slot_params(has_slot: bool) -> Seq<Seq<char>> {
    if has_slot {
        seq!["T"@]
    } else {
        Seq::empty()
    }
}

/// What a catalog entry holds, as character sequences.
pub open spec fn base_type_matches(b: CairoBaseType, i: int) -> bool {
    &&& b.name@ == base_type_names()[i]
    &&& b.generics@.map_values(|g: String| g@) == slot_params(base_type_slots()[i])
}

fn base_type(name: &str, has_slot: bool) -> (r: CairoBaseType)
    ensures
        r.name@ == name@,
        r.generics@.map_values(|g: String| g@) == slot_params(has_slot),
{
    let mut generics: Vec<String> = Vec::new();
    if has_slot {
        generics.push(String::from_str("T"));
    }
    proof {
        assert(generics@.map_values(|g: String| g@) =~= slot_params(has_slot));
    }
    CairoBaseType { name: String::from_str(name), generics }
}

/// The fixed table of primitive types.
pub fn get_cairo_base_types() -> (r: [CairoBaseType; 40])
    ensures
        forall|i: int| 0 <= i < BASE_TYPE_COUNT ==> base_type_matches(#[trigger] r@[i], i),
{
    [
        base_type("bytes31", false),
        base_type("felt252", false),
        base_type("usize", false),
        base_type("Array", true),
        base_type("Nullable", true),
        base_type("Box", true),
        base_type("Felt252Dict", true),
        base_type("SquashedFelt252Dict", true),
        base_type("Felt252DictEntry", true),
        base_type("EcOp", false),
        base_type("EcPoint", false),
        base_type("NonZeroEcPoint", false),
        base_type("EcState", false),
        base_type("GasBuiltin", false),
        base_type("BuiltinCosts", false),
        base_type("Pedersen", false),
        base_type("Poseidon", false),
        base_type("System", false),
        base_type("SyscallResult", true),
        base_type("NonZero", true),
        base_type("u8", false),
        base_type("u16", false),
        base_type("u32", false),
        base_type("u64", false),
        base_type("u128", false),
        base_type("i8", false),
        base_type("i16", false),
        base_type("i32", false),
        base_type("i64", false),
        base_type("i128", false),
        base_type("U128MulGuarantee", false),
        base_type("Bitwise", false),
        base_type("RangeCheck", false),
        base_type("SegmentArena", false),
        base_type("ClassHash", false),
        base_type("Secp256k1Point", false),
        base_type("Secp256r1Point", false),
        base_type("ContractAddress", false),
        base_type("StorageAddress", false),
        base_type("StorageBaseAddress", false),
    ]
}

/// Looks a primitive type up by name; the first entry of that name wins.
pub fn get_cairo_base_type_from_name(name: &str) -> (r: Option<CairoBaseType>)
    ensures
        r is Some <==> is_base_type(name@),
        r matches Some(b) ==> base_type_matches(b, first_index(base_type_names(), name@)),
{
    let table = get_cairo_base_types();
    let target = String::from_str(name);
    let mut i: usize = 0;
    while i < BASE_TYPE_COUNT
        invariant
            i <= BASE_TYPE_COUNT,
            target@ == name@,
            forall|k: int| 0 <= k < BASE_TYPE_COUNT ==> base_type_matches(#[trigger] table@[k], k),
            forall|j: int| 0 <= j < i ==> base_type_names()[j] != name@,
        decreases BASE_TYPE_COUNT - i,
    {
        if table[i].name == target {
            proof {
                assert(base_type_matches(table@[i as int], i as int));
                assert(table@[i as int].generics@.map_values(|g: String| g@).len()
                    == table@[i as int].generics@.len());
                assert(is_first(base_type_names(), name@, i as int));
                lemma_first_index(base_type_names(), name@, i as int);
            }
            return Some(base_type(name, table[i].generics.len() == 1));
        }
        proof {
            assert(base_type_matches(table@[i as int], i as int));
        }
        i += 1;
    }
    proof {
        assert forall|j: int| 0 <= j < base_type_names().len() implies base_type_names()[j] != name@ by {}
    }
    None
}

} // verus!
