use vstd::prelude::*;

use crate::cairo_base_type::{get_cairo_base_type_from_name, is_base_type};
use crate::lookup::{first_index, is_first, lemma_first_index};
use crate::types::{names_view, CairoEnum, CairoStruct, Src5Error, TypeRef};

verus! {

// ---------------------------------------------------------------------------
// The mathematical model of canonicalization
// ---------------------------------------------------------------------------

/// A substitution environment as a list of (generic parameter, canonical
/// string) pairs; a later pair for the same parameter shadows an earlier one.
pub open spec fn env_view(entries: Seq<(String, String)>) -> Seq<(Seq<char>, Seq<char>)> {
    entries.map_values(|p: (String, String)| (p.0@, p.1@))
}

/// The binding of `name` in a list of pairs: the last pair for it wins.
pub open spec fn env_lookup(entries: Seq<(Seq<char>, Seq<char>)>, name: Seq<char>) -> Option<
    Seq<char>,
>
    decreases entries.len(),
{
    if entries.len() == 0 {
        None
    } else if entries.last().0 == name {
        Some(entries.last().1)
    } else {
        env_lookup(entries.drop_last(), name)
    }
}

/// The mapping from parameter names to canonical strings that a list of pairs denotes.
pub open spec fn env_map(entries: Seq<(Seq<char>, Seq<char>)>) -> Map<Seq<char>, Seq<char>> {
    Map::new(
        |k: Seq<char>| env_lookup(entries, k) is Some,
        |k: Seq<char>| env_lookup(entries, k)->Some_0,
    )
}

/// Pairs each declared generic parameter with the argument at its position,
/// as far as both lists go.
pub open spec fn zip_min(params: Seq<Seq<char>>, args: Seq<Seq<char>>) -> Seq<
    (Seq<char>, Seq<char>),
> {
    let n = if params.len() <= args.len() {
        params.len()
    } else {
        args.len()
    };
    Seq::new(n, |i: int| (params[i], args[i]))
}

/// The fresh environment of a generic instantiation.
pub open spec fn bind(params: Seq<Seq<char>>, args: Seq<Seq<char>>) -> Map<Seq<char>, Seq<char>> {
    env_map(zip_min(params, args))
}

/// Strings joined with a comma between each two.
pub open spec fn join(parts: Seq<Seq<char>>) -> Seq<char>
    decreases parts.len(),
{
    if parts.len() == 0 {
        Seq::empty()
    } else if parts.len() == 1 {
        parts[0]
    } else {
        join(parts.drop_last()) + ","@ + parts.last()
    }
}

pub open spec fn struct_names(structs: Seq<CairoStruct>) -> Seq<Seq<char>> {
    structs.map_values(|s: CairoStruct| s.name@)
}

pub open spec fn enum_names(enums: Seq<CairoEnum>) -> Seq<Seq<char>> {
    enums.map_values(|e: CairoEnum| e.name@)
}

/// The names of all declared structs and enums.
pub open spec fn decl_names(structs: Seq<CairoStruct>, enums: Seq<CairoEnum>) -> Set<Seq<char>> {
    struct_names(structs).to_set() + enum_names(enums).to_set()
}

/// What a struct or enum name resolves to: whether it is an enum, its generic
/// parameters and its member (or variant) types. Structs take precedence over
/// enums, and the first declaration of a name wins.
pub open spec fn decl_of(structs: Seq<CairoStruct>, enums: Seq<CairoEnum>, name: Seq<char>) -> Option<
    (bool, Seq<Seq<char>>, Seq<TypeRef>),
> {
    let si = first_index(struct_names(structs), name);
    let ei = first_index(enum_names(enums), name);
    if si >= 0 {
        Some((false, names_view(structs[si].generics@), structs[si].members_types@))
    } else if ei >= 0 {
        Some((true, names_view(enums[ei].generics@), enums[ei].variants_types@))
    } else {
        None
    }
}

/// The number of declarations that may still be entered while the names in
/// `visiting` are being flattened.
pub open spec fn budget(
    structs: Seq<CairoStruct>,
    enums: Seq<CairoEnum>,
    visiting: Set<Seq<char>>,
) -> nat {
    decl_names(structs, enums).difference(visiting).len()
}

/// The canonical string of `t`, given the declarations, the substitution
/// environment `env`, and the set of declarations being flattened around it.
/// A name resolves to its binding in `env` (when it has no arguments), else
/// to a primitive, a struct or an enum, in that order. A generic
/// instantiation binds parameters to arguments by position as far as both
/// lists go: a parameter without an argument stays unbound, an argument
/// without a parameter is dropped. Entering a declaration that is already
/// being flattened is an error, since its flattening would never end.
pub open spec fn canon(
    structs: Seq<CairoStruct>,
    enums: Seq<CairoEnum>,
    env: Map<Seq<char>, Seq<char>>,
    visiting: Set<Seq<char>>,
    t: TypeRef,
) -> Result<Seq<char>, Src5Error>
    decreases budget(structs, enums, visiting), t,
{
    match t {
        TypeRef::Reference(inner) => match canon(structs, enums, env, visiting, *inner) {
            Ok(s) => Ok("@"@ + s),
            Err(e) => Err(e),
        },
        TypeRef::Tuple(items) => match canon_each(structs, enums, env, visiting, items@) {
            Ok(parts) => Ok("("@ + join(parts) + ")"@),
            Err(e) => Err(e),
        },
        TypeRef::Path(name, args) => {
            if args.len() == 0 && env.contains_key(name@) {
                Ok(env[name@])
            } else {
                match canon_each(structs, enums, env, visiting, args@) {
                    Err(e) => Err(e),
                    Ok(cargs) => {
                        if is_base_type(name@) {
                            if args.len() == 0 {
                                Ok(name@)
                            } else {
                                Ok(name@ + "<"@ + join(cargs) + ">"@)
                            }
                        } else {
                            match decl_of(structs, enums, name@) {
                                None => Err(Src5Error::UnknownType(name)),
                                Some(d) => {
                                    if visiting.contains(name@) {
                                        Err(Src5Error::RecursiveType(name))
                                    } else {
                                        let inner_env = if args.len() == 0 {
                                            env
                                        } else {
                                            bind(d.1, cargs)
                                        };
                                        proof {
                                            lemma_budget_decreases(structs, enums, visiting, name@);
                                        }
                                        match canon_each(
                                            structs,
                                            enums,
                                            inner_env,
                                            visiting.insert(name@),
                                            d.2,
                                        ) {
                                            Ok(parts) => Ok(open_paren(d.0) + join(parts) + ")"@),
                                            Err(e) => Err(e),
                                        }
                                    }
                                },
                            }
                        }
                    },
                }
            }
        },
    }
}

/// What opens the flattening of a struct (`(`) or of an enum (`E(`).
pub open spec fn open_paren(is_enum: bool) -> Seq<char> {
    if is_enum {
        "E("@
    } else {
        "("@
    }
}

/// The canonical strings of `ts` in order, or the first error met from the left.
pub open spec fn canon_each(
    structs: Seq<CairoStruct>,
    enums: Seq<CairoEnum>,
    env: Map<Seq<char>, Seq<char>>,
    visiting: Set<Seq<char>>,
    ts: Seq<TypeRef>,
) -> Result<Seq<Seq<char>>, Src5Error>
    decreases budget(structs, enums, visiting), ts,
{
    if ts.len() == 0 {
        Ok(Seq::empty())
    } else {
        match canon_each(structs, enums, env, visiting, ts.subrange(0, ts.len() - 1)) {
            Err(e) => Err(e),
            Ok(prefix) => match canon(structs, enums, env, visiting, ts[ts.len() - 1]) {
                Err(e) => Err(e),
                Ok(s) => Ok(prefix.push(s)),
            },
        }
    }
}

/// Entering a declaration that is not being flattened yet uses up one unit of budget.
pub proof fn lemma_budget_decreases(
    structs: Seq<CairoStruct>,
    enums: Seq<CairoEnum>,
    visiting: Set<Seq<char>>,
    name: Seq<char>,
)
    requires
        decl_of(structs, enums, name) is Some,
        !visiting.contains(name),
    ensures
        budget(structs, enums, visiting.insert(name)) < budget(structs, enums, visiting),
{
    let all = decl_names(structs, enums);
    let si = first_index(struct_names(structs), name);
    let ei = first_index(enum_names(enums), name);
    if si >= 0 {
        assert(struct_names(structs).contains(name));
        assert(struct_names(structs).to_set().contains(name));
    } else {
        assert(enum_names(enums).contains(name));
        assert(enum_names(enums).to_set().contains(name));
    }
    assert(all.contains(name));
    vstd::seq_lib::seq_to_set_is_finite(struct_names(structs));
    vstd::seq_lib::seq_to_set_is_finite(enum_names(enums));
    assert(all.finite());
    assert(all.difference(visiting.insert(name)) =~= all.difference(visiting).remove(name));
    assert(all.difference(visiting).contains(name));
}

/// Canonicalizing each of the first `k` types already failed: then so does
/// canonicalizing all of them, with the same error.
pub proof fn lemma_canon_each_prefix_err(
    structs: Seq<CairoStruct>,
    enums: Seq<CairoEnum>,
    env: Map<Seq<char>, Seq<char>>,
    visiting: Set<Seq<char>>,
    ts: Seq<TypeRef>,
    k: int,
)
    requires
        0 <= k <= ts.len(),
        canon_each(structs, enums, env, visiting, ts.subrange(0, k)) is Err,
    ensures
        canon_each(structs, enums, env, visiting, ts) == canon_each(
            structs,
            enums,
            env,
            visiting,
            ts.subrange(0, k),
        ),
    decreases ts.len() - k,
{
    if k < ts.len() {
        assert(ts.subrange(0, k + 1).subrange(0, k) =~= ts.subrange(0, k));
        lemma_canon_each_prefix_err(structs, enums, env, visiting, ts, k + 1);
    } else {
        assert(ts.subrange(0, k) =~= ts);
    }
}

// ---------------------------------------------------------------------------
// Executable canonicalization
// ---------------------------------------------------------------------------

/// The names of the declarations being flattened, as a set.
pub open spec fn visiting_set(visiting: Seq<String>) -> Set<Seq<char>> {
    visiting.map_values(|s: String| s@).to_set()
}

/// An executable result agrees with its model.
pub open spec fn result_matches(r: Result<String, Src5Error>, m: Result<Seq<char>, Src5Error>) -> bool {
    match r {
        Ok(s) => m == Ok::<Seq<char>, Src5Error>(s@),
        Err(e) => m == Err::<Seq<char>, Src5Error>(e),
    }
}

/// An executable list of results agrees with its model.
pub open spec fn results_match(
    r: Result<Vec<String>, Src5Error>,
    m: Result<Seq<Seq<char>>, Src5Error>,
) -> bool {
    match r {
        Ok(v) => m == Ok::<Seq<Seq<char>>, Src5Error>(names_view(v@)),
        Err(e) => m == Err::<Seq<Seq<char>>, Src5Error>(e),
    }
}

/// The canonical string of a type reference that stands in a declaration
/// with no generic context: no parameter is bound and nothing is being flattened.
pub open spec fn src5_type(structs: Seq<CairoStruct>, enums: Seq<CairoEnum>, t: TypeRef) -> Result<
    Seq<char>,
    Src5Error,
> {
    canon(structs, enums, Map::empty(), Set::empty(), t)
}

/// Looks a generic parameter up in a substitution environment; the last
/// binding of the name wins.
pub fn get_replacement_from_name(name: &str, replacements: &Vec<(String, String)>) -> (r: Option<
    String,
>)
    ensures
        r is Some <==> env_map(env_view(replacements@)).contains_key(name@),
        r matches Some(v) ==> v@ == env_map(env_view(replacements@))[name@],
{
    let ghost ev = env_view(replacements@);
    let target = String::from_str(name);
    let mut i: usize = replacements.len();
    proof {
        assert(ev.subrange(0, i as int) =~= ev);
    }
    while i > 0
        invariant
            i <= replacements.len(),
            ev == env_view(replacements@),
            target@ == name@,
            env_lookup(ev, name@) == env_lookup(ev.subrange(0, i as int), name@),
        decreases i,
    {
        let ghost sub = ev.subrange(0, i as int);
        proof {
            assert(sub.drop_last() =~= ev.subrange(0, i - 1));
            assert(sub.last() == ev[i - 1]);
        }
        if replacements[i - 1].0 == target {
            return Some(replacements[i - 1].1.clone());
        }
        i -= 1;
    }
    None
}

/// Strings joined with a comma between each two.
pub fn join_parts(parts: &Vec<String>) -> (r: String)
    ensures
        r@ == join(names_view(parts@)),
{
    let ghost pv = names_view(parts@);
    let mut out = String::new();
    let mut i: usize = 0;
    while i < parts.len()
        invariant
            i <= parts.len(),
            pv == names_view(parts@),
            out@ == join(pv.subrange(0, i as int)),
        decreases parts.len() - i,
    {
        proof {
            assert(pv.subrange(0, i + 1).drop_last() =~= pv.subrange(0, i as int));
        }
        if i > 0 {
            out.append(",");
        }
        out.append(parts[i].as_str());
        i += 1;
    }
    proof {
        assert(pv.subrange(0, parts.len() as int) =~= pv);
    }
    out
}

/// Looks a struct up by name; the first declaration of the name wins.
pub fn get_cairo_struct_from_name<'a>(name: &str, structs: &'a [CairoStruct]) -> (r: Option<
    &'a CairoStruct,
>)
    ensures
        r is Some <==> first_index(struct_names(structs@), name@) >= 0,
        r matches Some(s) ==> *s == structs@[first_index(struct_names(structs@), name@)],
{
    let target = String::from_str(name);
    let mut i: usize = 0;
    while i < structs.len()
        invariant
            i <= structs.len(),
            target@ == name@,
            forall|j: int| 0 <= j < i ==> struct_names(structs@)[j] != name@,
        decreases structs.len() - i,
    {
        if structs[i].name == target {
            proof {
                assert(is_first(struct_names(structs@), name@, i as int));
                lemma_first_index(struct_names(structs@), name@, i as int);
            }
            return Some(&structs[i]);
        }
        i += 1;
    }
    proof {
        assert(!struct_names(structs@).contains(name@));
    }
    None
}

/// Looks an enum up by name; the first declaration of the name wins.
pub fn get_cairo_enum_from_name<'a>(name: &str, enums: &'a [CairoEnum]) -> (r: Option<
    &'a CairoEnum,
>)
    ensures
        r is Some <==> first_index(enum_names(enums@), name@) >= 0,
        r matches Some(e) ==> *e == enums@[first_index(enum_names(enums@), name@)],
{
    let target = String::from_str(name);
    let mut i: usize = 0;
    while i < enums.len()
        invariant
            i <= enums.len(),
            target@ == name@,
            forall|j: int| 0 <= j < i ==> enum_names(enums@)[j] != name@,
        decreases enums.len() - i,
    {
        if enums[i].name == target {
            proof {
                assert(is_first(enum_names(enums@), name@, i as int));
                lemma_first_index(enum_names(enums@), name@, i as int);
            }
            return Some(&enums[i]);
        }
        i += 1;
    }
    proof {
        assert(!enum_names(enums@).contains(name@));
    }
    None
}

/// The environment of a generic instantiation: each declared parameter bound
/// to the canonical argument at its position, as far as both lists go.
fn bind_generics(params: &Vec<String>, args: &Vec<String>) -> (r: Vec<(String, String)>)
    ensures
        env_view(r@) =~= zip_min(names_view(params@), names_view(args@)),
{
    let n = if params.len() <= args.len() {
        params.len()
    } else {
        args.len()
    };
    let mut out: Vec<(String, String)> = Vec::new();
    let mut i: usize = 0;
    while i < n
        invariant
            i <= n,
            n <= params.len(),
            n <= args.len(),
            env_view(out@) =~= Seq::new(
                i as nat,
                |k: int| (names_view(params@)[k], names_view(args@)[k]),
            ),
        decreases n - i,
    {
        let ghost prev = out@;
        let p = params[i].clone();
        let a = args[i].clone();
        out.push((p, a));
        proof {
            assert(env_view(out@) =~= env_view(prev).push((p@, a@)));
        }
        i += 1;
    }
    out
}

/// Whether `name` is among the declarations being flattened.
fn is_visiting(visiting: &Vec<String>, name: &String) -> (r: bool)
    ensures
        r == visiting_set(visiting@).contains(name@),
{
    let mut i: usize = 0;
    while i < visiting.len()
        invariant
            i <= visiting.len(),
            forall|j: int| 0 <= j < i ==> visiting@[j]@ != name@,
        decreases visiting.len() - i,
    {
        if visiting[i] == *name {
            proof {
                assert(visiting@.map_values(|s: String| s@)[i as int] == name@);
            }
            return true;
        }
        i += 1;
    }
    proof {
        assert(!visiting@.map_values(|s: String| s@).contains(name@));
    }
    false
}

/// The canonical string of `t` under `env`, while the declarations named in
/// `visiting` are being flattened.
fn resolve(
    t: &TypeRef,
    structs: &[CairoStruct],
    enums: &[CairoEnum],
    env: &Vec<(String, String)>,
    visiting: &mut Vec<String>,
) -> (r: Result<String, Src5Error>)
    ensures
        final(visiting)@ == old(visiting)@,
        result_matches(
            r,
            canon(structs@, enums@, env_map(env_view(env@)), visiting_set(old(visiting)@), *t),
        ),
    decreases budget(structs@, enums@, visiting_set(old(visiting)@)), *t,
{
    match t {
        TypeRef::Reference(inner) => {
            match resolve(inner, structs, enums, env, visiting) {
                Err(e) => Err(e),
                Ok(s) => {
                    let mut out = String::from_str("@");
                    out.append(s.as_str());
                    Ok(out)
                },
            }
        },
        TypeRef::Tuple(items) => {
            match resolve_each(items, structs, enums, env, visiting) {
                Err(e) => Err(e),
                Ok(parts) => {
                    let mut out = String::from_str("(");
                    out.append(join_parts(&parts).as_str());
                    out.append(")");
                    Ok(out)
                },
            }
        },
        TypeRef::Path(name, args) => {
            if args.len() == 0 {
                if let Some(replacement) = get_replacement_from_name(name.as_str(), env) {
                    return Ok(replacement);
                }
            }
            let cargs = match resolve_each(args, structs, enums, env, visiting) {
                Err(e) => {
                    return Err(e);
                },
                Ok(c) => c,
            };
            if get_cairo_base_type_from_name(name.as_str()).is_some() {
                let mut out = String::from_str(name.as_str());
                if args.len() != 0 {
                    out.append("<");
                    out.append(join_parts(&cargs).as_str());
                    out.append(">");
                }
                return Ok(out);
            }
            let ghost d = decl_of(structs@, enums@, name@);
            let (is_enum, params, members) = match get_cairo_struct_from_name(name.as_str(), structs) {
                Some(st) => (false, &st.generics, &st.members_types),
                None => match get_cairo_enum_from_name(name.as_str(), enums) {
                    Some(en) => (true, &en.generics, &en.variants_types),
                    None => {
                        return Err(Src5Error::UnknownType(name.clone()));
                    },
                },
            };
            assert(d == Some((is_enum, names_view(params@), members@)));
            if is_visiting(visiting, name) {
                return Err(Src5Error::RecursiveType(name.clone()));
            }
            let ghost before = visiting@;
            proof {
                lemma_budget_decreases(structs@, enums@, visiting_set(before), name@);
            }
            visiting.push(name.clone());
            proof {
                assert(before.push(*name).map_values(|s: String| s@) =~= before.map_values(
                    |s: String| s@,
                ).push(name@));
                before.map_values(|s: String| s@).lemma_push_to_set_commute(name@);
                assert(visiting_set(visiting@) == visiting_set(before).insert(name@));
            }
            let parts = if args.len() == 0 {
                resolve_each(members, structs, enums, env, visiting)
            } else {
                let inner_env = bind_generics(params, &cargs);
                resolve_each(members, structs, enums, &inner_env, visiting)
            };
            let _ = visiting.pop();
            proof {
                assert(visiting@ =~= before);
            }
            match parts {
                Err(e) => Err(e),
                Ok(parts) => {
                    let mut out = if is_enum {
                        String::from_str("E(")
                    } else {
                        String::from_str("(")
                    };
                    out.append(join_parts(&parts).as_str());
                    out.append(")");
                    Ok(out)
                },
            }
        },
    }
}

/// The canonical strings of `ts` in order, or the first error met from the left.
fn resolve_each(
    ts: &Vec<TypeRef>,
    structs: &[CairoStruct],
    enums: &[CairoEnum],
    env: &Vec<(String, String)>,
    visiting: &mut Vec<String>,
) -> (r: Result<Vec<String>, Src5Error>)
    ensures
        final(visiting)@ == old(visiting)@,
        results_match(
            r,
            canon_each(structs@, enums@, env_map(env_view(env@)), visiting_set(old(visiting)@), ts@),
        ),
    decreases budget(structs@, enums@, visiting_set(old(visiting)@)), *ts,
{
    let ghost m = env_map(env_view(env@));
    let ghost vs = visiting_set(visiting@);
    let ghost before = visiting@;
    let mut parts: Vec<String> = Vec::new();
    let mut i: usize = 0;
    proof {
        assert(ts@.subrange(0, 0) =~= Seq::<TypeRef>::empty());
        assert(names_view(parts@) =~= Seq::<Seq<char>>::empty());
    }
    while i < ts.len()
        invariant
            i <= ts.len(),
            visiting@ == before,
            before == old(visiting)@,
            vs == visiting_set(before),
            m == env_map(env_view(env@)),
            canon_each(structs@, enums@, m, vs, ts@.subrange(0, i as int)) == Ok::<
                Seq<Seq<char>>,
                Src5Error,
            >(names_view(parts@)),
        decreases ts.len() - i,
    {
        proof {
            assert(ts@.subrange(0, i + 1).subrange(0, i as int) =~= ts@.subrange(0, i as int));
            assert(ts@.subrange(0, i + 1)[i as int] == ts@[i as int]);
            assert(decreases_to!(*ts => ts[i as int]));
        }
        match resolve(&ts[i], structs, enums, env, visiting) {
            Err(e) => {
                proof {
                    lemma_canon_each_prefix_err(structs@, enums@, m, vs, ts@, i + 1);
                }
                return Err(e);
            },
            Ok(s) => {
                let ghost prev = parts@;
                let ghost sv = s@;
                parts.push(s);
                proof {
                    assert(names_view(parts@) =~= names_view(prev).push(sv));
                    assert(canon(structs@, enums@, m, vs, ts@[i as int]) == Ok::<
                        Seq<char>,
                        Src5Error,
                    >(sv));
                    assert(canon_each(structs@, enums@, m, vs, ts@.subrange(0, i + 1)) == Ok::<
                        Seq<Seq<char>>,
                        Src5Error,
                    >(names_view(prev).push(sv)));
                }
            },
        }
        i += 1;
    }
    proof {
        assert(ts@.subrange(0, ts.len() as int) =~= ts@);
    }
    Ok(parts)
}

/// The canonical string of `t` under the substitution environment
/// `replacements`, with `cairo_structs` and `cairo_enums` declared.
pub fn canonicalize(
    t: &TypeRef,
    cairo_structs: &[CairoStruct],
    cairo_enums: &[CairoEnum],
    replacements: &Vec<(String, String)>,
) -> (r: Result<String, Src5Error>)
    ensures
        result_matches(
            r,
            canon(
                cairo_structs@,
                cairo_enums@,
                env_map(env_view(replacements@)),
                Set::empty(),
                *t,
            ),
        ),
{
    let mut visiting: Vec<String> = Vec::new();
    proof {
        assert(visiting_set(visiting@) =~= Set::<Seq<char>>::empty());
    }
    resolve(t, cairo_structs, cairo_enums, replacements, &mut visiting)
}

impl TypeRef {
    /// The canonical string of this type as it stands in a declaration:
    /// no generic parameter is bound.
    pub fn get_src5_type(&self, cairo_structs: &[CairoStruct], cairo_enums: &[CairoEnum]) -> (r:
        Result<String, Src5Error>)
        ensures
            result_matches(r, src5_type(cairo_structs@, cairo_enums@, *self)),
    {
        let empty: Vec<(String, String)> = Vec::new();
        proof {
            assert(env_map(env_view(empty@)) =~= Map::<Seq<char>, Seq<char>>::empty());
        }
        canonicalize(self, cairo_structs, cairo_enums, &empty)
    }
}

/// The canonical strings of several type references that stand in a
/// declaration, in order, or the first error met from the left.
pub fn canonicalize_each(ts: &Vec<TypeRef>, cairo_structs: &[CairoStruct], cairo_enums: &[CairoEnum]) -> (r:
    Result<Vec<String>, Src5Error>)
    ensures
        results_match(r, canon_each(cairo_structs@, cairo_enums@, Map::empty(), Set::empty(), ts@)),
{
    let empty: Vec<(String, String)> = Vec::new();
    let mut visiting: Vec<String> = Vec::new();
    proof {
        assert(env_map(env_view(empty@)) =~= Map::<Seq<char>, Seq<char>>::empty());
        assert(visiting_set(visiting@) =~= Set::<Seq<char>>::empty());
    }
    resolve_each(ts, cairo_structs, cairo_enums, &empty, &mut visiting)
}

} // verus!
