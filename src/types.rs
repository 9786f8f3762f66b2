use vstd::prelude::*;

verus! {

/// A reference to a type as it is written in a declaration: a path with
/// optional generic arguments, a tuple, or a snapshot (`@T`).
#[derive(Debug, PartialEq, Eq)]
pub enum TypeRef {
    Path(String, Vec<TypeRef>),
    Tuple(Vec<TypeRef>),
    Reference(Box<TypeRef>),
}

/// A struct declaration: its name, its generic parameters in order, and the
/// types of its members in declaration order.
#[derive(Debug)]
pub struct CairoStruct {
    pub name: String,
    pub generics: Vec<String>,
    pub members_types: Vec<TypeRef>,
}

/// An enum declaration: its name, its generic parameters in order, and the
/// payload types of its variants in declaration order.
#[derive(Debug)]
pub struct CairoEnum {
    pub name: String,
    pub generics: Vec<String>,
    pub variants_types: Vec<TypeRef>,
}

/// Why a declaration or a type could not be brought to its canonical form.
#[derive(Debug, Clone, PartialEq, Eq)]
pub enum Src5Error {
    /// The parser rejected the source text; the payload is its diagnostics.
    ParseFailure(String),
    /// A node of the syntax tree lacks a child that its kind requires; the
    /// payload names the kind that was expected.
    StructuralMismatch(String),
    /// A type name is neither a bound generic parameter, a primitive, a
    /// struct nor an enum.
    UnknownType(String),
    /// A struct or enum contains itself, so it has no finite flattening.
    RecursiveType(String),
}

/// Strings as character sequences.
pub open spec fn names_view(names: Seq<String>) -> Seq<Seq<char>> {
    names.map_values(|s: String| s@)
}

/// The shape of a type reference: its names as character sequences and its
/// nested references as sequences.
pub enum TypeShape {
    Path(Seq<char>, Seq<TypeShape>),
    Tuple(Seq<TypeShape>),
    Reference(Box<TypeShape>),
}

impl TypeRef {
    pub open spec fn shape(self) -> TypeShape
        decreases self,
    {
        match self {
            TypeRef::Path(name, args) => TypeShape::Path(
                name@,
                Seq::new(
                    args@.len(),
                    |i: int|
                        if 0 <= i < args@.len() {
                            args@[i].shape()
                        } else {
                            TypeShape::Tuple(Seq::empty())
                        },
                ),
            ),
            TypeRef::Tuple(items) => TypeShape::Tuple(
                Seq::new(
                    items@.len(),
                    |i: int|
                        if 0 <= i < items@.len() {
                            items@[i].shape()
                        } else {
                            TypeShape::Tuple(Seq::empty())
                        },
                ),
            ),
            TypeRef::Reference(inner) => TypeShape::Reference(Box::new((*inner).shape())),
        }
    }
}

/// The shape of a path is its name and the shapes of its arguments.
pub proof fn lemma_path_shape(name: String, args: Vec<TypeRef>)
    ensures
        TypeRef::Path(name, args).shape() == TypeShape::Path(
            name@,
            args@.map_values(|a: TypeRef| a.shape()),
        ),
{
    let t = TypeRef::Path(name, args);
    match t.shape() {
        TypeShape::Path(n, s) => {
            assert(s =~= args@.map_values(|a: TypeRef| a.shape()));
        },
        _ => {},
    }
}

/// The shape of a tuple is the shapes of its items.
pub proof fn lemma_tuple_shape(items: Vec<TypeRef>)
    ensures
        TypeRef::Tuple(items).shape() == TypeShape::Tuple(items@.map_values(|a: TypeRef| a.shape())),
{
    let t = TypeRef::Tuple(items);
    match t.shape() {
        TypeShape::Tuple(s) => {
            assert(s =~= items@.map_values(|a: TypeRef| a.shape()));
        },
        _ => {},
    }
}

} // verus!
