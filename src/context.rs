use vstd::prelude::*;
use crate::model;
use crate::wire;

verus! {

broadcast use vstd::std_specs::vec::axiom_vec_index_decreases;

/// The domain IRI `d` and the wire IRI `w` are the same term.
pub open spec fn iri_corr(d: model::Iri, w: wire::Iri) -> bool {
    match d {
        model::Iri::Direct(s) => w == wire::Iri::Direct(s),
        model::Iri::TypeCoercion { id, typ } => w == wire::Iri::TypeCoercion(
            wire::TypeCoercion { id, typ },
        ),
    }
}

/// The domain context `d` and the wire context `w` have the same variant
/// and the same contents, in the same order.
pub open spec fn ctx_corr(d: model::Context, w: wire::Context) -> bool
    decreases d,
{
    match d {
        model::Context::Single(a) => w matches wire::Context::Single(b) && iri_corr(a, b),
        model::Context::Mix(dv) => w matches wire::Context::Mix(wv) && dv.len() == wv.len()
            && forall|i: int| 0 <= i < dv.len() ==> ctx_corr(#[trigger] dv[i], wv[i]),
        model::Context::TermDefs(dm) => w matches wire::Context::TermDefs(wm) && dm.len()
            == wm.len() && forall|i: int|
            0 <= i < dm.len() ==> (#[trigger] dm[i]).0 == wm[i].0 && iri_corr(dm[i].1, wm[i].1),
    }
}

/// Optional contexts correspond: both absent, or both present and alike.
pub open spec fn ctx_opt_corr(d: Option<model::Context>, w: Option<wire::Context>) -> bool {
    match (d, w) {
        (None, None) => true,
        (Some(a), Some(b)) => ctx_corr(a, b),
        _ => false,
    }
}

pub fn iri_to_wire(d: model::Iri) -> (r: wire::Iri)
    ensures
        iri_corr(d, r),
{
    match d {
        model::Iri::Direct(s) => wire::Iri::Direct(s),
        model::Iri::TypeCoercion { id, typ } => wire::Iri::TypeCoercion(
            wire::TypeCoercion { id, typ },
        ),
    }
}

pub fn iri_to_domain(w: wire::Iri) -> (r: model::Iri)
    ensures
        iri_corr(r, w),
{
    match w {
        wire::Iri::Direct(s) => model::Iri::Direct(s),
        wire::Iri::TypeCoercion(t) => model::Iri::TypeCoercion { id: t.id, typ: t.typ },
    }
}

/// Writes a context variant by variant, recursing into nested contexts.
pub fn context_to_wire(c: model::Context) -> (r: wire::Context)
    ensures
        ctx_corr(c, r),
    decreases c,
{
    match c {
        model::Context::Single(i) => wire::Context::Single(iri_to_wire(i)),
        model::Context::Mix(v) => {
            let ghost gv = v;
            let n = v.len();
            let mut rest = v;
            let mut out: Vec<wire::Context> = Vec::new();
            let mut k: usize = 0;
            while k < n
                invariant
                    n == gv.len(),
                    k <= n,
                    rest@ == gv@.subrange(k as int, n as int),
                    out@.len() == k,
                    forall|i: int| 0 <= i < k ==> ctx_corr(#[trigger] gv[i], out@[i]),
                    c == model::Context::Mix(gv),
                decreases n - k,
            {
                let item = rest.remove(0);
                assert(item == gv[k as int]);
                proof {
                    vstd::std_specs::vec::axiom_vec_index_decreases(gv, k as int);
                    assert(decreases_to!(c => c->Mix_0));
                }
                let w = context_to_wire(item);
                out.push(w);
                k = k + 1;
            }
            wire::Context::Mix(out)
        },
        model::Context::TermDefs(m) => {
            let ghost gm = m;
            let n = m.len();
            let mut rest = m;
            let mut out: Vec<(String, wire::Iri)> = Vec::new();
            let mut k: usize = 0;
            while k < n
                invariant
                    n == gm.len(),
                    k <= n,
                    rest@ == gm@.subrange(k as int, n as int),
                    out@.len() == k,
                    forall|i: int|
                        0 <= i < k ==> (#[trigger] gm[i]).0 == out@[i].0 && iri_corr(
                            gm[i].1,
                            out@[i].1,
                        ),
                decreases n - k,
            {
                let (key, item) = rest.remove(0);
                out.push((key, iri_to_wire(item)));
                k = k + 1;
            }
            wire::Context::TermDefs(out)
        },
    }
}

/// Reads a context variant by variant, recursing into nested contexts.
pub fn context_to_domain(c: wire::Context) -> (r: model::Context)
    ensures
        ctx_corr(r, c),
    decreases c,
{
    match c {
        wire::Context::Single(i) => model::Context::Single(iri_to_domain(i)),
        wire::Context::Mix(v) => {
            let ghost gv = v;
            let n = v.len();
            let mut rest = v;
            let mut out: Vec<model::Context> = Vec::new();
            let mut k: usize = 0;
            while k < n
                invariant
                    n == gv.len(),
                    k <= n,
                    rest@ == gv@.subrange(k as int, n as int),
                    out@.len() == k,
                    forall|i: int| 0 <= i < k ==> ctx_corr(#[trigger] out@[i], gv[i]),
                    c == wire::Context::Mix(gv),
                decreases n - k,
            {
                let item = rest.remove(0);
                assert(item == gv[k as int]);
                proof {
                    vstd::std_specs::vec::axiom_vec_index_decreases(gv, k as int);
                    assert(decreases_to!(c => c->Mix_0));
                }
                let d = context_to_domain(item);
                out.push(d);
                k = k + 1;
            }
            model::Context::Mix(out)
        },
        wire::Context::TermDefs(m) => {
            let ghost gm = m;
            let n = m.len();
            let mut rest = m;
            let mut out: Vec<(String, model::Iri)> = Vec::new();
            let mut k: usize = 0;
            while k < n
                invariant
                    n == gm.len(),
                    k <= n,
                    rest@ == gm@.subrange(k as int, n as int),
                    out@.len() == k,
                    forall|i: int|
                        0 <= i < k ==> (#[trigger] out@[i]).0 == gm[i].0 && iri_corr(
                            out@[i].1,
                            gm[i].1,
                        ),
                decreases n - k,
            {
                let (key, item) = rest.remove(0);
                out.push((key, iri_to_domain(item)));
                k = k + 1;
            }
            model::Context::TermDefs(out)
        },
    }
}

pub fn context_opt_to_wire(c: Option<model::Context>) -> (r: Option<wire::Context>)
    ensures
        ctx_opt_corr(c, r),
{
    match c {
        None => None,
        Some(c) => Some(context_to_wire(c)),
    }
}

pub fn context_opt_to_domain(c: Option<wire::Context>) -> (r: Option<model::Context>)
    ensures
        ctx_opt_corr(r, c),
{
    match c {
        None => None,
        Some(c) => Some(context_to_domain(c)),
    }
}

} // verus!
