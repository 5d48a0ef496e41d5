use vstd::prelude::*;
use crate::convert::{
    box_obj_dec,
    box_obj_dec_ok,
    box_obj_enc,
    box_obj_stable,
    box_ool_dec,
    box_ool_dec_ok,
    box_ool_enc,
    box_ool_stable,
    compactable,
    link_dec,
    link_enc,
    obj_dec,
    obj_dec_ok,
    obj_enc,
    obj_stable,
    ool_dec,
    ool_dec_ok,
    ool_enc,
    ool_stable,
    ools_dec,
    ools_dec_ok,
    ools_enc,
    ools_stable,
    url_dec,
    url_enc,
    url_stable,
};
use crate::lax::{lemma_lax_round_trip, Lax};
use crate::model;
use crate::wire;

verus! {

broadcast use vstd::std_specs::vec::axiom_vec_index_decreases;

/// A link written in its full shape reads back as the same link.
pub proof fn lemma_link_round_trip(l: model::Link, w: wire::Link)
    requires
        link_enc(l, w),
    ensures
        link_dec(w, l),
{
    lemma_lax_round_trip(l.typ@, w.typ);
    lemma_lax_round_trip(l.media_type@, w.media_type);
    lemma_lax_round_trip(l.rel@, w.rel);
}

/// An object's `url` reads back as the link it was written from, whether
/// it was compacted to a bare IRI or not.
pub proof fn lemma_url_round_trip(d: Option<model::Link>, w: Option<wire::LinkOrUri>)
    requires
        url_enc(d, w),
        url_stable(d),
    ensures
        url_dec(w, d),
{
    if let Some(l) = d {
        if !compactable(l) {
            lemma_link_round_trip(l, w->0->Link_0);
        }
    }
}

/// An object or link reads back from what it is written as.
pub proof fn lemma_ool_round_trip(x: model::ObjectOrLink, w: wire::ObjectOrLink)
    requires
        ool_enc(x, w),
        ool_stable(x),
    ensures
        ool_dec_ok(w),
        ool_dec(w, x),
    decreases x,
{
    match x {
        model::ObjectOrLink::Object(o) => {
            lemma_object_round_trip(o, *w->Object_0);
        },
        model::ObjectOrLink::Link(l) => {
            if !compactable(l) {
                lemma_link_round_trip(l, w->Link_0);
            }
        },
    }
}

/// A sequence of objects or links reads back, in order, from the
/// one-or-many value it is written as.
pub proof fn lemma_ools_round_trip(v: Vec<model::ObjectOrLink>, l: Option<Lax<wire::ObjectOrLink>>)
    requires
        ools_enc(v, l),
        ools_stable(v),
    ensures
        ools_dec_ok(l),
        ools_dec(l, v),
    decreases v,
{
    match l {
        None => {},
        Some(Lax::One(x)) => {
            lemma_ool_round_trip(v[0], x);
        },
        Some(Lax::Many(ws)) => {
            assert forall|i: int| 0 <= i < ws.len() implies ool_dec_ok(#[trigger] ws[i]) && ool_dec(
                ws[i],
                v[i],
            ) by {
                lemma_ool_round_trip(v[i], ws[i]);
            }
        },
    }
}

pub proof fn lemma_box_obj_round_trip(b: Option<Box<model::Object>>, w: Option<Box<wire::Object>>)
    requires
        box_obj_enc(b, w),
        box_obj_stable(b),
    ensures
        box_obj_dec_ok(w),
        box_obj_dec(w, b),
    decreases b,
{
    if let Some(o) = b {
        lemma_object_round_trip(*o, *w->0);
    }
}

pub proof fn lemma_box_ool_round_trip(
    b: Option<Box<model::ObjectOrLink>>,
    w: Option<Box<wire::ObjectOrLink>>,
)
    requires
        box_ool_enc(b, w),
        box_ool_stable(b),
    ensures
        box_ool_dec_ok(w),
        box_ool_dec(w, b),
    decreases b,
{
    if let Some(x) = b {
        lemma_ool_round_trip(*x, *w->0);
    }
}

/// Writing an object and reading it back gives the same object: every
/// property, every nested object and link, and every sequence in order.
/// The object is taken stable: each date reads back from its RFC 3339 text
/// as itself (the text keeps whole seconds only), and no link that is
/// compacted to a bare IRI carries a context.
#[verifier::spinoff_prover]
#[verifier::rlimit(100)]
pub proof fn lemma_object_round_trip(o: model::Object, w: wire::Object)
    requires
        obj_enc(o, w),
        obj_stable(o),
    ensures
        obj_dec_ok(w),
        obj_dec(w, o),
    decreases o,
{
    lemma_lax_round_trip(o.typ@, w.typ);
    lemma_ools_round_trip(o.object_items.attachment, w.attachment);
    lemma_ools_round_trip(o.object_items.attributed_to, w.attributed_to);
    lemma_ools_round_trip(o.object_items.audience, w.audience);
    lemma_ools_round_trip(o.object_items.bcc, w.bcc);
    lemma_ools_round_trip(o.object_items.bto, w.bto);
    lemma_ools_round_trip(o.object_items.cc, w.cc);
    lemma_ools_round_trip(o.object_items.context, w.context);
    lemma_ools_round_trip(o.object_items.generator, w.generator);
    lemma_ools_round_trip(o.object_items.icon, w.icon);
    lemma_ools_round_trip(o.object_items.image, w.image);
    lemma_ools_round_trip(o.object_items.in_reply_to, w.in_reply_to);
    lemma_ools_round_trip(o.object_items.location, w.location);
    lemma_ools_round_trip(o.object_items.preview, w.preview);
    lemma_box_obj_round_trip(o.object_items.replies, w.replies);
    lemma_ools_round_trip(o.object_items.tag, w.tag);
    lemma_ools_round_trip(o.object_items.to, w.to);
    lemma_url_round_trip(o.object_items.url, w.url);
    lemma_lax_round_trip(o.object_items.content@, w.content);
    lemma_lax_round_trip(o.object_items.name@, w.name);
    lemma_lax_round_trip(o.object_items.media_type@, w.media_type);
    lemma_lax_round_trip(o.object_items.summary@, w.summary);
    lemma_box_obj_round_trip(o.object_items.describes, w.describes);
    lemma_ools_round_trip(o.activity_items.actor, w.actor);
    lemma_ools_round_trip(o.activity_items.instrument, w.instrument);
    lemma_ools_round_trip(o.activity_items.origin, w.origin);
    lemma_ools_round_trip(o.activity_items.object, w.object);
    lemma_ools_round_trip(o.activity_items.result, w.result);
    lemma_ools_round_trip(o.activity_items.target, w.target);
    lemma_box_ool_round_trip(o.collection_items.current, w.current);
    lemma_box_ool_round_trip(o.collection_items.first, w.first);
    lemma_box_ool_round_trip(o.collection_items.last, w.last);
    lemma_ools_round_trip(o.collection_items.items, w.items);
    lemma_ools_round_trip(o.ordered_collection_items.ordered_items, w.ordered_items);
    lemma_box_ool_round_trip(o.collection_page_items.next, w.next);
    lemma_box_ool_round_trip(o.collection_page_items.prev, w.prev);
    lemma_box_ool_round_trip(o.collection_page_items.part_of, w.part_of);
    lemma_box_ool_round_trip(o.relationship_items.subject, w.subject);
    lemma_ools_round_trip(o.relationship_items.relationship, w.relationship);
    lemma_lax_round_trip(o.tombstone_items.former_type@, w.former_type);
    lemma_ools_round_trip(o.question_items.one_of, w.one_of);
    lemma_ools_round_trip(o.question_items.any_of, w.any_of);
    lemma_lax_round_trip(o.activity_streams_ext_items.also_known_as@, w.also_known_as);
}

} // verus!
