use vstd::prelude::*;
use vstd::string::StringExecFns;
use crate::json::Json;
use crate::wire;

verus! {

broadcast use vstd::std_specs::vec::axiom_vec_index_decreases;

/// The member name of a term definition's IRI.
pub open spec fn id_key() -> Seq<char> {
    seq!['@', 'i', 'd']
}

/// The member name of a term definition's type.
pub open spec fn type_key() -> Seq<char> {
    seq!['@', 't', 'y', 'p', 'e']
}

/// The value of the first member named `key`, if any.
pub open spec fn member(m: Seq<(String, Json)>, key: Seq<char>) -> Option<Json>
    decreases m.len(),
{
    if m.len() == 0 {
        None
    } else if m[0].0@ == key {
        Some(m[0].1)
    } else {
        member(m.drop_first(), key)
    }
}

/// The JSON value has the shape of an IRI: a string, or an object with a
/// string `@id` and a string, null or absent `@type`.
pub open spec fn iri_json_ok(j: Json) -> bool {
    match j {
        Json::String(_) => true,
        Json::Object(m) => {
            &&& member(m@, id_key()) matches Some(Json::String(_))
            &&& match member(m@, type_key()) {
                None | Some(Json::Null) | Some(Json::String(_)) => true,
                _ => false,
            }
        },
        _ => false,
    }
}

/// `i` is the IRI that the JSON value `j` is read as.
pub open spec fn iri_json(j: Json, i: wire::Iri) -> bool {
    match j {
        Json::String(s) => i == wire::Iri::Direct(s),
        Json::Object(m) => {
            &&& member(m@, id_key()) matches Some(Json::String(id))
            &&& i matches wire::Iri::TypeCoercion(t)
            &&& t.id == id
            &&& match member(m@, type_key()) {
                Some(Json::String(ty)) => t.typ == Some(ty),
                _ => t.typ is None,
            }
        },
        _ => false,
    }
}

/// The JSON value is a context: an IRI, an array of contexts, or an object
/// whose member values are all IRIs.
pub open spec fn ctx_json_ok(j: Json) -> bool
    decreases j,
{
    if iri_json_ok(j) {
        true
    } else {
        match j {
            Json::Array(v) => forall|i: int| 0 <= i < v.len() ==> ctx_json_ok(#[trigger] v[i]),
            Json::Object(m) => forall|i: int| 0 <= i < m.len() ==> iri_json_ok((#[trigger] m[i]).1),
            _ => false,
        }
    }
}

/// `c` is the context that `j` is read as. The shapes are tried in the
/// order IRI (string, then type coercion), list of contexts, term
/// definitions, and the first that fits is taken.
pub open spec fn ctx_json(j: Json, c: wire::Context) -> bool
    decreases j,
{
    if iri_json_ok(j) {
        c matches wire::Context::Single(i) && iri_json(j, i)
    } else {
        match j {
            Json::Array(v) => c matches wire::Context::Mix(cs) && cs.len() == v.len() && forall|i: int|
                0 <= i < v.len() ==> ctx_json(#[trigger] v[i], cs[i]),
            Json::Object(m) => c matches wire::Context::TermDefs(t) && t.len() == m.len() && forall|
                i: int,
            |
                0 <= i < m.len() ==> (#[trigger] t[i]).0 == m[i].0 && iri_json(m[i].1, t[i].1),
            _ => false,
        }
    }
}

/// Finds the first member named `key`.
fn find_member<'a>(m: &'a Vec<(String, Json)>, key: &String) -> (r: Option<&'a Json>)
    ensures
        r is None <==> member(m@, key@) is None,
        r matches Some(x) ==> member(m@, key@) == Some(*x),
{
    let n = m.len();
    let mut i: usize = 0;
    assert(m@.subrange(0, n as int) =~= m@);
    while i < n
        invariant
            n == m@.len(),
            i <= n,
            member(m@, key@) == member(m@.subrange(i as int, n as int), key@),
        decreases n - i,
    {
        assert(m@.subrange(i as int, n as int).drop_first() =~= m@.subrange(i + 1, n as int));
        if m[i].0 == *key {
            return Some(&m[i].1);
        }
        i = i + 1;
    }
    assert(m@.subrange(n as int, n as int).len() == 0);
    None
}

/// Reads an IRI: a string, or a type-coercion object.
pub fn iri_from_json(j: &Json) -> (r: Option<wire::Iri>)
    ensures
        r is Some <==> iri_json_ok(*j),
        r matches Some(i) ==> iri_json(*j, i),
{
    match j {
        Json::String(s) => Some(wire::Iri::Direct(s.clone())),
        Json::Object(m) => {
            let id_member = String::from_str("@id");
            let ty_member = String::from_str("@type");
            proof {
                reveal_strlit("@id");
                reveal_strlit("@type");
                assert(id_member@ =~= id_key());
                assert(ty_member@ =~= type_key());
            }
            let id = match find_member(m, &id_member) {
                Some(Json::String(s)) => s.clone(),
                _ => {
                    return None;
                },
            };
            let typ = match find_member(m, &ty_member) {
                None => None,
                Some(Json::Null) => None,
                Some(Json::String(t)) => Some(t.clone()),
                _ => {
                    return None;
                },
            };
            Some(wire::Iri::TypeCoercion(wire::TypeCoercion { id, typ }))
        },
        _ => None,
    }
}

/// Reads a `@context` value; `None` where it has no context shape.
pub fn context_from_json(j: &Json) -> (r: Option<wire::Context>)
    ensures
        r is Some <==> ctx_json_ok(*j),
        r matches Some(c) ==> ctx_json(*j, c),
    decreases j,
{
    if let Some(i) = iri_from_json(j) {
        return Some(wire::Context::Single(i));
    }
    match j {
        Json::Array(v) => {
            let n = v.len();
            let mut out: Vec<wire::Context> = Vec::new();
            let mut k: usize = 0;
            while k < n
                invariant
                    n == v@.len(),
                    k <= n,
                    out@.len() == k,
                    forall|i: int|
                        0 <= i < k ==> ctx_json_ok(#[trigger] v[i]) && ctx_json(v[i], out@[i]),
                    *j == Json::Array(*v),
                    !iri_json_ok(*j),
                decreases n - k,
            {
                proof {
                    vstd::std_specs::vec::axiom_vec_index_decreases(*v, k as int);
                    assert(decreases_to!(*j => (*j)->Array_0));
                }
                match context_from_json(&v[k]) {
                    Some(c) => out.push(c),
                    None => {
                        assert(!ctx_json_ok(v[k as int]));
                        return None;
                    },
                }
                k = k + 1;
            }
            Some(wire::Context::Mix(out))
        },
        Json::Object(m) => {
            let n = m.len();
            let mut out: Vec<(String, wire::Iri)> = Vec::new();
            let mut k: usize = 0;
            while k < n
                invariant
                    n == m@.len(),
                    k <= n,
                    out@.len() == k,
                    forall|i: int|
                        0 <= i < k ==> iri_json_ok((#[trigger] m[i]).1) && out@[i].0 == m[i].0
                            && iri_json(m[i].1, out@[i].1),
                    *j == Json::Object(*m),
                    !iri_json_ok(*j),
                decreases n - k,
            {
                match iri_from_json(&m[k].1) {
                    Some(i) => out.push((m[k].0.clone(), i)),
                    None => {
                        assert(!iri_json_ok(m[k as int].1));
                        return None;
                    },
                }
                k = k + 1;
            }
            Some(wire::Context::TermDefs(out))
        },
        _ => None,
    }
}

/// `j` is how the IRI `i` is written: a string, or an object with `@id`
/// and, where there is one, `@type`.
pub open spec fn iri_written(i: wire::Iri, j: Json) -> bool {
    match i {
        wire::Iri::Direct(s) => j == Json::String(s),
        wire::Iri::TypeCoercion(t) => {
            &&& j matches Json::Object(m)
            &&& m.len() == if t.typ is Some { 2int } else { 1int }
            &&& m[0].0@ == id_key()
            &&& m[0].1 == Json::String(t.id)
            &&& t.typ matches Some(ty) ==> m[1].0@ == type_key() && m[1].1 == Json::String(ty)
        },
    }
}

/// `j` is how the context `c` is written: variant by variant, members and
/// items in order.
pub open spec fn ctx_written(c: wire::Context, j: Json) -> bool
    decreases c,
{
    match c {
        wire::Context::Single(i) => iri_written(i, j),
        wire::Context::Mix(cs) => j matches Json::Array(v) && v.len() == cs.len() && forall|k: int|
            0 <= k < cs.len() ==> ctx_written(#[trigger] cs[k], v[k]),
        wire::Context::TermDefs(t) => j matches Json::Object(m) && m.len() == t.len() && forall|
            k: int,
        |
            0 <= k < t.len() ==> (#[trigger] m[k]).0 == t[k].0 && iri_written(t[k].1, m[k].1),
    }
}

/// Writes an IRI.
pub fn iri_to_json(i: wire::Iri) -> (r: Json)
    ensures
        iri_written(i, r),
{
    match i {
        wire::Iri::Direct(s) => Json::String(s),
        wire::Iri::TypeCoercion(t) => {
            let id_member = String::from_str("@id");
            let ty_member = String::from_str("@type");
            proof {
                reveal_strlit("@id");
                reveal_strlit("@type");
                assert(id_member@ =~= id_key());
                assert(ty_member@ =~= type_key());
            }
            let mut m: Vec<(String, Json)> = Vec::new();
            m.push((id_member, Json::String(t.id)));
            match t.typ {
                Some(ty) => m.push((ty_member, Json::String(ty))),
                None => {},
            }
            Json::Object(m)
        },
    }
}

/// Writes a `@context` value.
pub fn context_to_json(c: wire::Context) -> (r: Json)
    ensures
        ctx_written(c, r),
    decreases c,
{
    match c {
        wire::Context::Single(i) => iri_to_json(i),
        wire::Context::Mix(v) => {
            let ghost gv = v;
            let n = v.len();
            let mut rest = v;
            let mut out: Vec<Json> = Vec::new();
            let mut k: usize = 0;
            while k < n
                invariant
                    n == gv.len(),
                    k <= n,
                    rest@ == gv@.subrange(k as int, n as int),
                    out@.len() == k,
                    forall|i: int| 0 <= i < k ==> ctx_written(#[trigger] gv[i], out@[i]),
                    c == wire::Context::Mix(gv),
                decreases n - k,
            {
                let item = rest.remove(0);
                assert(item == gv[k as int]);
                proof {
                    vstd::std_specs::vec::axiom_vec_index_decreases(gv, k as int);
                    assert(decreases_to!(c => c->Mix_0));
                }
                out.push(context_to_json(item));
                k = k + 1;
            }
            Json::Array(out)
        },
        wire::Context::TermDefs(t) => {
            let ghost gt = t;
            let n = t.len();
            let mut rest = t;
            let mut out: Vec<(String, Json)> = Vec::new();
            let mut k: usize = 0;
            while k < n
                invariant
                    n == gt.len(),
                    k <= n,
                    rest@ == gt@.subrange(k as int, n as int),
                    out@.len() == k,
                    forall|i: int|
                        0 <= i < k ==> (#[trigger] out@[i]).0 == gt[i].0 && iri_written(
                            gt[i].1,
                            out@[i].1,
                        ),
                decreases n - k,
            {
                let (key, item) = rest.remove(0);
                out.push((key, iri_to_json(item)));
                k = k + 1;
            }
            Json::Object(out)
        },
    }
}

/// No map of term definitions in the context defines the term `@id`; a map
/// that did would be written as an object that reads as a type coercion.
pub open spec fn no_id_term(c: wire::Context) -> bool
    decreases c,
{
    match c {
        wire::Context::Single(_) => true,
        wire::Context::Mix(cs) => forall|k: int| 0 <= k < cs.len() ==> no_id_term(#[trigger] cs[k]),
        wire::Context::TermDefs(t) => forall|k: int| 0 <= k < t.len() ==> (#[trigger] t[k]).0@ != id_key(),
    }
}

proof fn lemma_member_absent(m: Seq<(String, Json)>, key: Seq<char>)
    requires
        forall|k: int| 0 <= k < m.len() ==> (#[trigger] m[k]).0@ != key,
    ensures
        member(m, key) is None,
    decreases m.len(),
{
    if m.len() > 0 {
        assert forall|k: int| 0 <= k < m.drop_first().len() implies (#[trigger] m.drop_first()[k]).0@
            != key by {
            assert(m.drop_first()[k] == m[k + 1]);
        }
        lemma_member_absent(m.drop_first(), key);
    }
}

proof fn lemma_iri_json_round_trip(i: wire::Iri, j: Json)
    requires
        iri_written(i, j),
    ensures
        iri_json_ok(j),
        iri_json(j, i),
{
    reveal_with_fuel(member, 3);
    assert(id_key() != type_key()) by {
        assert(id_key().len() != type_key().len());
    }
    if let Json::Object(m) = j {
        assert(m@.drop_first().len() == m.len() - 1);
        if m.len() == 2 {
            assert(m@.drop_first()[0] == m@[1]);
            assert(m@.drop_first().drop_first().len() == 0);
        }
    }
}

/// A context reads back as itself from the JSON it is written as, provided
/// no map of term definitions in it defines `@id`.
pub proof fn lemma_context_json_round_trip(c: wire::Context, j: Json)
    requires
        ctx_written(c, j),
        no_id_term(c),
    ensures
        ctx_json_ok(j),
        ctx_json(j, c),
    decreases c,
{
    match c {
        wire::Context::Single(i) => {
            lemma_iri_json_round_trip(i, j);
        },
        wire::Context::Mix(cs) => {
            let v = j->Array_0;
            assert forall|k: int| 0 <= k < v.len() implies ctx_json_ok(#[trigger] v[k]) && ctx_json(
                v[k],
                cs[k],
            ) by {
                lemma_context_json_round_trip(cs[k], v[k]);
            }
        },
        wire::Context::TermDefs(t) => {
            let m = j->Object_0;
            assert forall|k: int| 0 <= k < m@.len() implies (#[trigger] m@[k]).0@ != id_key() by {
                assert(m@[k].0 == t[k].0);
            }
            lemma_member_absent(m@, id_key());
            assert forall|k: int| 0 <= k < m.len() implies iri_json_ok((#[trigger] m[k]).1) && iri_json(
                m[k].1,
                t[k].1,
            ) by {
                lemma_iri_json_round_trip(t[k].1, m[k].1);
            }
        },
    }
}

/// The shape of a `@context` value decides its variant: a string is a
/// direct IRI, an array is a list of contexts, and an object without an
/// `@id` member is a map of term definitions.
pub proof fn lemma_context_shape(j: Json, c: wire::Context)
    requires
        ctx_json(j, c),
    ensures
        j is String ==> c matches wire::Context::Single(wire::Iri::Direct(_)),
        j is Array ==> c is Mix,
        (j matches Json::Object(m) && member(m@, id_key()) is None) ==> c is TermDefs,
{
}

} // verus!
