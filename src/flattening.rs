use vstd::prelude::*;

use crate::cairo_base_type::is_base_type;
use crate::cairo_function::{efs, CairoNonGenericFunction};
use crate::src5_type::{canon, canon_each, decl_of, env_map, env_view, join, result_matches};
use crate::types::{CairoEnum, CairoStruct, Src5Error, TypeRef};

verus! {

/// Canonicalization is a function of the type and of the bindings of the
/// environment: two runs under environments that bind the same names to the
/// same strings produce the same string, or the same error.
pub proof fn lemma_canonicalize_deterministic(
    structs: Seq<CairoStruct>,
    enums: Seq<CairoEnum>,
    env1: Seq<(String, String)>,
    env2: Seq<(String, String)>,
    t: TypeRef,
    r1: Result<String, Src5Error>,
    r2: Result<String, Src5Error>,
)
    requires
        env_map(env_view(env1)) == env_map(env_view(env2)),
        result_matches(r1, canon(structs, enums, env_map(env_view(env1)), Set::empty(), t)),
        result_matches(r2, canon(structs, enums, env_map(env_view(env2)), Set::empty(), t)),
    ensures
        r1 is Ok <==> r2 is Ok,
        r1 is Ok ==> r1->Ok_0@ == r2->Ok_0@,
        r1 is Err ==> r1 == r2,
{
}

/// A primitive named without generic arguments canonicalizes to its own name
/// wherever no generic parameter of that name is bound.
pub proof fn lemma_primitive_invariance(
    structs: Seq<CairoStruct>,
    enums: Seq<CairoEnum>,
    env: Map<Seq<char>, Seq<char>>,
    visiting: Set<Seq<char>>,
    name: String,
    args: Vec<TypeRef>,
)
    requires
        is_base_type(name@),
        args@.len() == 0,
        !env.contains_key(name@),
    ensures
        canon(structs, enums, env, visiting, TypeRef::Path(name, args)) == Ok::<
            Seq<char>,
            Src5Error,
        >(name@),
{
    assert(canon_each(structs, enums, env, visiting, args@) == Ok::<Seq<Seq<char>>, Src5Error>(
        Seq::empty(),
    ));
}

proof fn lemma_canon_each_one(
    structs: Seq<CairoStruct>,
    enums: Seq<CairoEnum>,
    env: Map<Seq<char>, Seq<char>>,
    visiting: Set<Seq<char>>,
    s: Seq<TypeRef>,
)
    requires
        s.len() == 1,
    ensures
        canon_each(structs, enums, env, visiting, s) == match canon(
            structs,
            enums,
            env,
            visiting,
            s[0],
        ) {
            Ok(c) => Ok::<Seq<Seq<char>>, Src5Error>(seq![c]),
            Err(e) => Err::<Seq<Seq<char>>, Src5Error>(e),
        },
{
    let e = s.subrange(0, 0);
    assert(e.len() == 0);
    assert(canon_each(structs, enums, env, visiting, e) == Ok::<Seq<Seq<char>>, Src5Error>(
        Seq::empty(),
    ));
    assert(s[s.len() - 1] == s[0]);
    let c = canon(structs, enums, env, visiting, s[0]);
    if c is Ok {
        assert(Seq::<Seq<char>>::empty().push(c->Ok_0) =~= seq![c->Ok_0]);
    }
}

proof fn lemma_canon_each_two(
    structs: Seq<CairoStruct>,
    enums: Seq<CairoEnum>,
    env: Map<Seq<char>, Seq<char>>,
    visiting: Set<Seq<char>>,
    t1: TypeRef,
    t2: TypeRef,
    c1: Seq<char>,
    c2: Seq<char>,
)
    requires
        canon(structs, enums, env, visiting, t1) == Ok::<Seq<char>, Src5Error>(c1),
        canon(structs, enums, env, visiting, t2) == Ok::<Seq<char>, Src5Error>(c2),
    ensures
        canon_each(structs, enums, env, visiting, seq![t1, t2]) == Ok::<
            Seq<Seq<char>>,
            Src5Error,
        >(seq![c1, c2]),
        join(seq![c1, c2]) == c1 + ","@ + c2,
{
    let s = seq![t1, t2];
    let p = s.subrange(0, 1);
    assert(p[0] == t1);
    lemma_canon_each_one(structs, enums, env, visiting, p);
    assert(s[s.len() - 1] == t2);
    assert(seq![c1].push(c2) =~= seq![c1, c2]);
    assert(seq![c1, c2].drop_last() =~= seq![c1]);
    assert(join(seq![c1]) == c1);
}

/// A struct with two members, named without generic arguments, flattens to
/// the parenthesized canonical forms of its members, resolved in the same
/// environment.
pub proof fn lemma_struct_flattening(
    structs: Seq<CairoStruct>,
    enums: Seq<CairoEnum>,
    env: Map<Seq<char>, Seq<char>>,
    name: String,
    args: Vec<TypeRef>,
    params: Seq<Seq<char>>,
    m1: TypeRef,
    m2: TypeRef,
    c1: Seq<char>,
    c2: Seq<char>,
)
    requires
        args@.len() == 0,
        !env.contains_key(name@),
        !is_base_type(name@),
        decl_of(structs, enums, name@) == Some((false, params, seq![m1, m2])),
        canon(structs, enums, env, set![name@], m1) == Ok::<Seq<char>, Src5Error>(c1),
        canon(structs, enums, env, set![name@], m2) == Ok::<Seq<char>, Src5Error>(c2),
    ensures
        canon(structs, enums, env, Set::empty(), TypeRef::Path(name, args)) == Ok::<
            Seq<char>,
            Src5Error,
        >("("@ + c1 + ","@ + c2 + ")"@),
{
    assert(Set::<Seq<char>>::empty().insert(name@) =~= set![name@]);
    assert(canon_each(structs, enums, env, Set::empty(), args@) == Ok::<
        Seq<Seq<char>>,
        Src5Error,
    >(Seq::empty()));
    lemma_canon_each_two(structs, enums, env, set![name@], m1, m2, c1, c2);
    assert(crate::src5_type::open_paren(false) + join(seq![c1, c2]) + ")"@ =~= "("@ + c1 + ","@
        + c2 + ")"@);
}

/// An enum with a variant of some type and a unit variant, named without
/// generic arguments, flattens to `E(` the variant's canonical form `,())`.
pub proof fn lemma_enum_flattening(
    structs: Seq<CairoStruct>,
    enums: Seq<CairoEnum>,
    env: Map<Seq<char>, Seq<char>>,
    name: String,
    args: Vec<TypeRef>,
    params: Seq<Seq<char>>,
    m1: TypeRef,
    unit_items: Vec<TypeRef>,
    c1: Seq<char>,
)
    requires
        args@.len() == 0,
        unit_items@.len() == 0,
        !env.contains_key(name@),
        !is_base_type(name@),
        decl_of(structs, enums, name@) == Some((true, params, seq![m1, TypeRef::Tuple(unit_items)])),
        canon(structs, enums, env, set![name@], m1) == Ok::<Seq<char>, Src5Error>(c1),
    ensures
        canon(structs, enums, env, Set::empty(), TypeRef::Path(name, args)) == Ok::<
            Seq<char>,
            Src5Error,
        >("E("@ + c1 + ","@ + "()"@ + ")"@),
{
    reveal_strlit("()");
    reveal_strlit("(");
    reveal_strlit(")");
    assert(Set::<Seq<char>>::empty().insert(name@) =~= set![name@]);
    assert(canon_each(structs, enums, env, Set::empty(), args@) == Ok::<
        Seq<Seq<char>>,
        Src5Error,
    >(Seq::empty()));
    let unit = TypeRef::Tuple(unit_items);
    assert(canon_each(structs, enums, env, set![name@], unit_items@) == Ok::<
        Seq<Seq<char>>,
        Src5Error,
    >(Seq::empty()));
    assert(join(Seq::<Seq<char>>::empty()) == Seq::<char>::empty());
    assert("("@ + Seq::<char>::empty() + ")"@ =~= "()"@);
    lemma_canon_each_two(structs, enums, env, set![name@], m1, unit, c1, "()"@);
    assert(crate::src5_type::open_paren(true) + join(seq![c1, "()"@]) + ")"@ =~= "E("@ + c1
        + ","@ + "()"@ + ")"@);
}

/// A generic struct whose one member is its one parameter, instantiated with
/// one argument, flattens to the parenthesized canonical form of the argument.
pub proof fn lemma_generic_substitution(
    structs: Seq<CairoStruct>,
    enums: Seq<CairoEnum>,
    env: Map<Seq<char>, Seq<char>>,
    name: String,
    param: String,
    no_args: Vec<TypeRef>,
    arg: TypeRef,
    args: Vec<TypeRef>,
    carg: Seq<char>,
)
    requires
        args@ == seq![arg],
        no_args@.len() == 0,
        !is_base_type(name@),
        decl_of(structs, enums, name@) == Some(
            (false, seq![param@], seq![TypeRef::Path(param, no_args)]),
        ),
        canon(structs, enums, env, Set::empty(), arg) == Ok::<Seq<char>, Src5Error>(carg),
    ensures
        canon(structs, enums, env, Set::empty(), TypeRef::Path(name, args)) == Ok::<
            Seq<char>,
            Src5Error,
        >("("@ + carg + ")"@),
{
    lemma_canon_each_one(structs, enums, env, Set::empty(), args@);
    let inner = crate::src5_type::bind(seq![param@], seq![carg]);
    let member = TypeRef::Path(param, no_args);
    assert(crate::src5_type::zip_min(seq![param@], seq![carg]) =~= seq![(param@, carg)]);
    assert(seq![(param@, carg)].drop_last() =~= Seq::<(Seq<char>, Seq<char>)>::empty());
    assert(inner.contains_key(param@) && inner[param@] == carg);
    let visiting = Set::<Seq<char>>::empty().insert(name@);
    assert(canon(structs, enums, inner, visiting, member) == Ok::<Seq<char>, Src5Error>(carg));
    lemma_canon_each_one(structs, enums, inner, visiting, seq![member]);
}

/// A snapshot of a tuple of two types canonicalizes to `@(`, their canonical
/// forms joined by a comma, and `)`.
pub proof fn lemma_reference_tuple_nesting(
    structs: Seq<CairoStruct>,
    enums: Seq<CairoEnum>,
    env: Map<Seq<char>, Seq<char>>,
    visiting: Set<Seq<char>>,
    items: Vec<TypeRef>,
    t1: TypeRef,
    t2: TypeRef,
    c1: Seq<char>,
    c2: Seq<char>,
)
    requires
        items@ == seq![t1, t2],
        canon(structs, enums, env, visiting, t1) == Ok::<Seq<char>, Src5Error>(c1),
        canon(structs, enums, env, visiting, t2) == Ok::<Seq<char>, Src5Error>(c2),
    ensures
        canon(structs, enums, env, visiting, TypeRef::Reference(Box::new(TypeRef::Tuple(items))))
            == Ok::<Seq<char>, Src5Error>("@"@ + ("("@ + c1 + ","@ + c2 + ")"@)),
{
    lemma_canon_each_two(structs, enums, env, visiting, t1, t2, c1, c2);
    assert("("@ + join(seq![c1, c2]) + ")"@ =~= "("@ + c1 + ","@ + c2 + ")"@);
    assert(canon(structs, enums, env, visiting, TypeRef::Tuple(items)) == Ok::<Seq<char>, Src5Error>(
        "("@ + c1 + ","@ + c2 + ")"@,
    ));
}

/// A wrapper struct `Span<T> { snapshot: @Array<T> }` instantiated with one
/// argument flattens to `(@Array<` the argument's canonical form `>)`.
pub proof fn lemma_span_wrapper(
    structs: Seq<CairoStruct>,
    enums: Seq<CairoEnum>,
    env: Map<Seq<char>, Seq<char>>,
    name: String,
    param: String,
    array: String,
    array_args: Vec<TypeRef>,
    no_args: Vec<TypeRef>,
    arg: TypeRef,
    args: Vec<TypeRef>,
    carg: Seq<char>,
)
    requires
        args@ == seq![arg],
        no_args@.len() == 0,
        array@ == "Array"@,
        array_args@ == seq![TypeRef::Path(param, no_args)],
        !is_base_type(name@),
        decl_of(structs, enums, name@) == Some(
            (
                false,
                seq![param@],
                seq![TypeRef::Reference(Box::new(TypeRef::Path(array, array_args)))],
            ),
        ),
        canon(structs, enums, env, Set::empty(), arg) == Ok::<Seq<char>, Src5Error>(carg),
    ensures
        canon(structs, enums, env, Set::empty(), TypeRef::Path(name, args)) == Ok::<
            Seq<char>,
            Src5Error,
        >("("@ + ("@"@ + ("Array"@ + "<"@ + carg + ">"@)) + ")"@),
{
    assert(crate::cairo_base_type::base_type_names()[3] == "Array"@);
    assert(is_base_type(array@));
    lemma_canon_each_one(structs, enums, env, Set::empty(), args@);
    let inner = crate::src5_type::bind(seq![param@], seq![carg]);
    assert(crate::src5_type::zip_min(seq![param@], seq![carg]) =~= seq![(param@, carg)]);
    assert(seq![(param@, carg)].drop_last() =~= Seq::<(Seq<char>, Seq<char>)>::empty());
    assert(inner.contains_key(param@) && inner[param@] == carg);
    let visiting = Set::<Seq<char>>::empty().insert(name@);
    let t_param = TypeRef::Path(param, no_args);
    assert(canon(structs, enums, inner, visiting, t_param) == Ok::<Seq<char>, Src5Error>(carg));
    lemma_canon_each_one(structs, enums, inner, visiting, array_args@);
    assert(join(seq![carg]) == carg);
    let arr = TypeRef::Path(array, array_args);
    assert(canon(structs, enums, inner, visiting, arr) == Ok::<Seq<char>, Src5Error>(
        "Array"@ + "<"@ + carg + ">"@,
    ));
    let member = TypeRef::Reference(Box::new(arr));
    lemma_canon_each_one(structs, enums, inner, visiting, seq![member]);
    assert(join(seq![("@"@ + ("Array"@ + "<"@ + carg + ">"@))]) == "@"@ + ("Array"@ + "<"@ + carg
        + ">"@));
}

/// The signature of `bar(self: @Foo) -> felt252`: where `Foo` resolves to
/// nothing, the signature fails with `UnknownType(Foo)`; where it
/// canonicalizes to `c`, the signature is `bar(@c)->felt252`.
pub proof fn lemma_end_to_end_signature(
    structs: Seq<CairoStruct>,
    enums: Seq<CairoEnum>,
    f: CairoNonGenericFunction,
    foo: String,
    foo_args: Vec<TypeRef>,
    felt: String,
    felt_args: Vec<TypeRef>,
)
    requires
        foo_args@.len() == 0,
        felt_args@.len() == 0,
        felt@ == "felt252"@,
        f.inputs_types@ == seq![TypeRef::Reference(Box::new(TypeRef::Path(foo, foo_args)))],
        f.return_type == Some(TypeRef::Path(felt, felt_args)),
    ensures
        !is_base_type(foo@) && decl_of(structs, enums, foo@) is None ==> efs(structs, enums, f)
            == Err::<Seq<char>, Src5Error>(Src5Error::UnknownType(foo)),
        canon(structs, enums, Map::empty(), Set::empty(), TypeRef::Path(foo, foo_args)) is Ok
            ==> efs(structs, enums, f) == Ok::<Seq<char>, Src5Error>(
            f.name@ + "("@ + ("@"@ + canon(
                structs,
                enums,
                Map::empty(),
                Set::empty(),
                TypeRef::Path(foo, foo_args),
            )->Ok_0) + ")"@ + "->"@ + "felt252"@,
        ),
{
    let env = Map::<Seq<char>, Seq<char>>::empty();
    let vis = Set::<Seq<char>>::empty();
    assert(crate::cairo_base_type::base_type_names()[1] == "felt252"@);
    assert(is_base_type(felt@));
    assert(canon_each(structs, enums, env, vis, foo_args@) == Ok::<Seq<Seq<char>>, Src5Error>(
        Seq::empty(),
    ));
    assert(canon_each(structs, enums, env, vis, felt_args@) == Ok::<Seq<Seq<char>>, Src5Error>(
        Seq::empty(),
    ));
    let p = TypeRef::Reference(Box::new(TypeRef::Path(foo, foo_args)));
    lemma_canon_each_one(structs, enums, env, vis, f.inputs_types@);
    let c = canon(structs, enums, env, vis, TypeRef::Path(foo, foo_args));
    if c is Ok {
        assert(join(seq!["@"@ + c->Ok_0]) == "@"@ + c->Ok_0);
    }
}

} // verus!
