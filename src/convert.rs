use vstd::prelude::*;
use crate::context::{ctx_opt_corr, context_opt_to_domain, context_opt_to_wire};
use crate::date::{
    date_dec,
    date_dec_ok,
    date_enc,
    date_enc_ok,
    date_stable,
    from_model_opt,
    to_model_opt,
    ConvError,
};
use crate::lax::{from_lax_array, lax_items, lax_shape, to_lax_array, Lax};
use crate::model;
use crate::wire;

verus! {

broadcast use vstd::std_specs::vec::axiom_vec_index_decreases;

// ---------------------------------------------------------------- keys

/// The domain key and the wire key hold the same values.
pub open spec fn key_corr(d: model::Key, w: wire::Key) -> bool {
    &&& d.id == w.id
    &&& d.owner == w.owner
    &&& d.public_key_pem == w.public_key_pem
}

pub open spec fn key_opt_corr(d: Option<model::Key>, w: Option<wire::Key>) -> bool {
    match d {
        None => w is None,
        Some(k) => w matches Some(x) && key_corr(k, x),
    }
}

pub fn key_to_wire(k: model::Key) -> (r: wire::Key)
    ensures
        key_corr(k, r),
{
    wire::Key { id: k.id, owner: k.owner, public_key_pem: k.public_key_pem }
}

pub fn key_to_domain(k: wire::Key) -> (r: model::Key)
    ensures
        key_corr(r, k),
{
    model::Key { id: k.id, owner: k.owner, public_key_pem: k.public_key_pem }
}

pub fn key_opt_to_wire(k: Option<model::Key>) -> (r: Option<wire::Key>)
    ensures
        key_opt_corr(k, r),
{
    match k {
        None => None,
        Some(k) => Some(key_to_wire(k)),
    }
}

pub fn key_opt_to_domain(k: Option<wire::Key>) -> (r: Option<model::Key>)
    ensures
        key_opt_corr(r, k),
{
    match k {
        None => None,
        Some(k) => Some(key_to_domain(k)),
    }
}

// ---------------------------------------------------------------- maps

/// A language or endpoint map is written only when it has an entry.
pub open spec fn map_enc(d: Vec<(String, String)>, w: Option<Vec<(String, String)>>) -> bool {
    if d@.len() == 0 {
        w is None
    } else {
        w matches Some(m) && m@ == d@
    }
}

/// An absent map reads as an empty one.
pub open spec fn map_dec(w: Option<Vec<(String, String)>>, d: Vec<(String, String)>) -> bool {
    match w {
        None => d@.len() == 0,
        Some(m) => d@ == m@,
    }
}

pub fn map_to_wire(m: Vec<(String, String)>) -> (r: Option<Vec<(String, String)>>)
    ensures
        map_enc(m, r),
{
    if m.len() == 0 {
        None
    } else {
        Some(m)
    }
}

pub fn map_to_domain(m: Option<Vec<(String, String)>>) -> (r: Vec<(String, String)>)
    ensures
        map_dec(m, r),
{
    match m {
        None => Vec::new(),
        Some(m) => m,
    }
}

// ---------------------------------------------------------------- links

/// No property but `href` (and perhaps `@context`) is set: such a link is
/// written as its bare IRI.
pub open spec fn compactable(l: model::Link) -> bool {
    &&& l.height is None
    &&& l.hreflang is None
    &&& l.id is None
    &&& l.media_type@.len() == 0
    &&& l.rel@.len() == 0
    &&& l.typ@.len() == 0
    &&& l.width is None
}

/// `l` is the link that the bare IRI `s` stands for.
pub open spec fn bare_link(l: model::Link, s: String) -> bool {
    &&& compactable(l)
    &&& l.schema_context is None
    &&& l.href == s
}

/// A link that is written as a bare IRI carries no context, so nothing of
/// it is lost.
pub open spec fn link_stable(l: model::Link) -> bool {
    compactable(l) ==> l.schema_context is None
}

/// `w` is the full wire shape of the link `l`.
pub open spec fn link_enc(l: model::Link, w: wire::Link) -> bool {
    &&& ctx_opt_corr(l.schema_context, w.schema_context)
    &&& w.id == l.id
    &&& lax_shape(l.typ@, w.typ)
    &&& w.href == l.href
    &&& w.height == l.height
    &&& w.hreflang == l.hreflang
    &&& lax_shape(l.media_type@, w.media_type)
    &&& lax_shape(l.rel@, w.rel)
    &&& w.width == l.width
}

/// `l` is the link that the full wire shape `w` is read as.
pub open spec fn link_dec(w: wire::Link, l: model::Link) -> bool {
    &&& ctx_opt_corr(l.schema_context, w.schema_context)
    &&& l.id == w.id
    &&& l.typ@ == lax_items(w.typ)
    &&& l.href == w.href
    &&& l.height == w.height
    &&& l.hreflang == w.hreflang
    &&& l.media_type@ == lax_items(w.media_type)
    &&& l.rel@ == lax_items(w.rel)
    &&& l.width == w.width
}

/// `u` is what the link `l` is written as: its bare IRI where it is
/// compactable, else its full shape.
pub open spec fn link_ref_enc(l: model::Link, u: wire::LinkOrUri) -> bool {
    if compactable(l) {
        u == wire::LinkOrUri::Uri(l.href)
    } else {
        u matches wire::LinkOrUri::Link(wl) && link_enc(l, wl)
    }
}

/// `l` is the link that `u` is read as.
pub open spec fn link_ref_dec(u: wire::LinkOrUri, l: model::Link) -> bool {
    match u {
        wire::LinkOrUri::Uri(s) => bare_link(l, s),
        wire::LinkOrUri::Link(wl) => link_dec(wl, l),
    }
}

pub open spec fn url_enc(d: Option<model::Link>, w: Option<wire::LinkOrUri>) -> bool {
    match d {
        None => w is None,
        Some(l) => w matches Some(u) && link_ref_enc(l, u),
    }
}

pub open spec fn url_dec(w: Option<wire::LinkOrUri>, d: Option<model::Link>) -> bool {
    match w {
        None => d is None,
        Some(u) => d matches Some(l) && link_ref_dec(u, l),
    }
}

pub open spec fn url_stable(d: Option<model::Link>) -> bool {
    d matches Some(l) ==> link_stable(l)
}

impl model::Link {
    /// The link that a bare IRI stands for: `href` and nothing else.
    pub fn from_href(href: String) -> (r: model::Link)
        ensures
            bare_link(r, href),
    {
        model::Link {
            schema_context: None,
            id: None,
            typ: Vec::new(),
            href,
            height: None,
            hreflang: None,
            media_type: Vec::new(),
            rel: Vec::new(),
            width: None,
        }
    }

    /// Whether the link is written as its bare IRI.
    pub fn is_bare(&self) -> (r: bool)
        ensures
            r == compactable(*self),
    {
        self.height.is_none() && self.hreflang.is_none() && self.id.is_none()
            && self.media_type.len() == 0 && self.rel.len() == 0 && self.typ.len() == 0
            && self.width.is_none()
    }
}

/// Writes the full wire shape of a link.
pub fn link_to_wire(l: model::Link) -> (r: wire::Link)
    ensures
        link_enc(l, r),
{
    wire::Link {
        schema_context: context_opt_to_wire(l.schema_context),
        id: l.id,
        typ: to_lax_array(l.typ),
        href: l.href,
        height: l.height,
        hreflang: l.hreflang,
        media_type: to_lax_array(l.media_type),
        rel: to_lax_array(l.rel),
        width: l.width,
    }
}

/// Reads a link from its full wire shape.
pub fn link_to_domain(w: wire::Link) -> (r: model::Link)
    ensures
        link_dec(w, r),
{
    model::Link {
        schema_context: context_opt_to_domain(w.schema_context),
        id: w.id,
        typ: from_lax_array(w.typ),
        href: w.href,
        height: w.height,
        hreflang: w.hreflang,
        media_type: from_lax_array(w.media_type),
        rel: from_lax_array(w.rel),
        width: w.width,
    }
}

/// Writes a link as its bare IRI where it is compactable, else in full.
pub fn link_ref_to_wire(l: model::Link) -> (r: wire::LinkOrUri)
    ensures
        link_ref_enc(l, r),
{
    if l.is_bare() {
        wire::LinkOrUri::Uri(l.href)
    } else {
        wire::LinkOrUri::Link(link_to_wire(l))
    }
}

/// Reads a link from a bare IRI or a full link shape.
pub fn link_ref_to_domain(u: wire::LinkOrUri) -> (r: model::Link)
    ensures
        link_ref_dec(u, r),
{
    match u {
        wire::LinkOrUri::Uri(s) => model::Link::from_href(s),
        wire::LinkOrUri::Link(wl) => link_to_domain(wl),
    }
}

pub fn url_to_wire(d: Option<model::Link>) -> (r: Option<wire::LinkOrUri>)
    ensures
        url_enc(d, r),
{
    match d {
        None => None,
        Some(l) => Some(link_ref_to_wire(l)),
    }
}

pub fn url_to_domain(w: Option<wire::LinkOrUri>) -> (r: Option<model::Link>)
    ensures
        url_dec(w, r),
{
    match w {
        None => None,
        Some(u) => Some(link_ref_to_domain(u)),
    }
}

// ---------------------------------------------------------------- objects or links

pub open spec fn ool_enc_ok(x: model::ObjectOrLink) -> bool
    decreases x,
{
    match x {
        model::ObjectOrLink::Object(o) => obj_enc_ok(o),
        model::ObjectOrLink::Link(_) => true,
    }
}

/// `w` is what `x` is written as: an object in full, a link by the
/// compaction rule.
pub open spec fn ool_enc(x: model::ObjectOrLink, w: wire::ObjectOrLink) -> bool
    decreases x,
{
    match x {
        model::ObjectOrLink::Object(o) => w matches wire::ObjectOrLink::Object(wo) && obj_enc(o, *wo),
        model::ObjectOrLink::Link(l) => if compactable(l) {
            w == wire::ObjectOrLink::Uri(l.href)
        } else {
            w matches wire::ObjectOrLink::Link(wl) && link_enc(l, wl)
        },
    }
}

pub open spec fn ool_dec_ok(w: wire::ObjectOrLink) -> bool
    decreases w,
{
    match w {
        wire::ObjectOrLink::Object(wo) => obj_dec_ok(*wo),
        _ => true,
    }
}

/// `x` is what `w` is read as; a bare IRI is a link with only `href`.
pub open spec fn ool_dec(w: wire::ObjectOrLink, x: model::ObjectOrLink) -> bool
    decreases w,
{
    match w {
        wire::ObjectOrLink::Uri(s) => x matches model::ObjectOrLink::Link(l) && bare_link(l, s),
        wire::ObjectOrLink::Link(wl) => x matches model::ObjectOrLink::Link(l) && link_dec(wl, l),
        wire::ObjectOrLink::Object(wo) => x matches model::ObjectOrLink::Object(o) && obj_dec(*wo, o),
    }
}

pub open spec fn ool_stable(x: model::ObjectOrLink) -> bool
    decreases x,
{
    match x {
        model::ObjectOrLink::Object(o) => obj_stable(o),
        model::ObjectOrLink::Link(l) => link_stable(l),
    }
}

pub open spec fn ools_enc_ok(v: Vec<model::ObjectOrLink>) -> bool
    decreases v,
{
    forall|i: int| 0 <= i < v.len() ==> ool_enc_ok(#[trigger] v[i])
}

/// `l` is what the sequence `v` is written as: absent, a bare value or an
/// array, each item by `ool_enc`, in order.
pub open spec fn ools_enc(v: Vec<model::ObjectOrLink>, l: Option<Lax<wire::ObjectOrLink>>) -> bool
    decreases v,
{
    match l {
        None => v.len() == 0,
        Some(Lax::One(x)) => v.len() == 1 && ool_enc(v[0], x),
        Some(Lax::Many(ws)) => v.len() >= 2 && ws.len() == v.len() && forall|i: int|
            0 <= i < v.len() ==> ool_enc(#[trigger] v[i], ws[i]),
    }
}

pub open spec fn ools_stable(v: Vec<model::ObjectOrLink>) -> bool
    decreases v,
{
    forall|i: int| 0 <= i < v.len() ==> ool_stable(#[trigger] v[i])
}

pub open spec fn ools_dec_ok(l: Option<Lax<wire::ObjectOrLink>>) -> bool
    decreases l,
{
    match l {
        None => true,
        Some(Lax::One(x)) => ool_dec_ok(x),
        Some(Lax::Many(ws)) => forall|i: int| 0 <= i < ws.len() ==> ool_dec_ok(#[trigger] ws[i]),
    }
}

/// `v` is the sequence that `l` is read as, in order.
pub open spec fn ools_dec(l: Option<Lax<wire::ObjectOrLink>>, v: Vec<model::ObjectOrLink>) -> bool
    decreases l,
{
    match l {
        None => v.len() == 0,
        Some(Lax::One(x)) => v.len() == 1 && ool_dec(x, v[0]),
        Some(Lax::Many(ws)) => ws.len() == v.len() && forall|i: int|
            0 <= i < ws.len() ==> ool_dec(#[trigger] ws[i], v[i]),
    }
}

pub open spec fn box_obj_enc_ok(b: Option<Box<model::Object>>) -> bool
    decreases b,
{
    match b {
        None => true,
        Some(o) => obj_enc_ok(*o),
    }
}

pub open spec fn box_obj_enc(b: Option<Box<model::Object>>, w: Option<Box<wire::Object>>) -> bool
    decreases b,
{
    match b {
        None => w is None,
        Some(o) => w matches Some(wo) && obj_enc(*o, *wo),
    }
}

pub open spec fn box_obj_dec_ok(w: Option<Box<wire::Object>>) -> bool
    decreases w,
{
    match w {
        None => true,
        Some(wo) => obj_dec_ok(*wo),
    }
}

pub open spec fn box_obj_dec(w: Option<Box<wire::Object>>, b: Option<Box<model::Object>>) -> bool
    decreases w,
{
    match w {
        None => b is None,
        Some(wo) => b matches Some(o) && obj_dec(*wo, *o),
    }
}

pub open spec fn box_obj_stable(b: Option<Box<model::Object>>) -> bool
    decreases b,
{
    match b {
        None => true,
        Some(o) => obj_stable(*o),
    }
}

pub open spec fn box_ool_enc_ok(b: Option<Box<model::ObjectOrLink>>) -> bool
    decreases b,
{
    match b {
        None => true,
        Some(x) => ool_enc_ok(*x),
    }
}

pub open spec fn box_ool_enc(
    b: Option<Box<model::ObjectOrLink>>,
    w: Option<Box<wire::ObjectOrLink>>,
) -> bool
    decreases b,
{
    match b {
        None => w is None,
        Some(x) => w matches Some(wx) && ool_enc(*x, *wx),
    }
}

pub open spec fn box_ool_dec_ok(w: Option<Box<wire::ObjectOrLink>>) -> bool
    decreases w,
{
    match w {
        None => true,
        Some(wx) => ool_dec_ok(*wx),
    }
}

pub open spec fn box_ool_dec(
    w: Option<Box<wire::ObjectOrLink>>,
    b: Option<Box<model::ObjectOrLink>>,
) -> bool
    decreases w,
{
    match w {
        None => b is None,
        Some(wx) => b matches Some(x) && ool_dec(*wx, *x),
    }
}

pub open spec fn box_ool_stable(b: Option<Box<model::ObjectOrLink>>) -> bool
    decreases b,
{
    match b {
        None => true,
        Some(x) => ool_stable(*x),
    }
}

// ---------------------------------------------------------------- actor group

/// The actor properties are written from the actor group, or not at all.
pub open spec fn actor_enc(a: Option<model::ActorItems>, w: wire::Object) -> bool {
    match a {
        None => {
            &&& w.inbox is None
            &&& w.outbox is None
            &&& w.following is None
            &&& w.followers is None
            &&& w.preferred_username is None
            &&& w.endpoints is None
        },
        Some(x) => {
            &&& w.inbox == Some(x.inbox)
            &&& w.outbox == Some(x.outbox)
            &&& w.following == Some(x.following)
            &&& w.followers == Some(x.followers)
            &&& w.preferred_username == x.preferred_username
            &&& map_enc(x.endpoints, w.endpoints)
        },
    }
}

/// The actor group is read only where all four collection links are
/// present; otherwise there is none.
pub open spec fn actor_dec(w: wire::Object, a: Option<model::ActorItems>) -> bool {
    if w.inbox is Some && w.outbox is Some && w.following is Some && w.followers is Some {
        &&& a matches Some(x)
        &&& w.inbox == Some(x.inbox)
        &&& w.outbox == Some(x.outbox)
        &&& w.following == Some(x.following)
        &&& w.followers == Some(x.followers)
        &&& x.preferred_username == w.preferred_username
        &&& map_dec(w.endpoints, x.endpoints)
    } else {
        a is None
    }
}

// ---------------------------------------------------------------- objects

/// Every nested value of the object can be written.
pub open spec fn obj_enc_ok(o: model::Object) -> bool
    decreases o,
{
    &&& ools_enc_ok(o.object_items.attachment)
    &&& ools_enc_ok(o.object_items.attributed_to)
    &&& ools_enc_ok(o.object_items.audience)
    &&& ools_enc_ok(o.object_items.bcc)
    &&& ools_enc_ok(o.object_items.bto)
    &&& ools_enc_ok(o.object_items.cc)
    &&& ools_enc_ok(o.object_items.context)
    &&& ools_enc_ok(o.object_items.generator)
    &&& ools_enc_ok(o.object_items.icon)
    &&& ools_enc_ok(o.object_items.image)
    &&& ools_enc_ok(o.object_items.in_reply_to)
    &&& ools_enc_ok(o.object_items.location)
    &&& ools_enc_ok(o.object_items.preview)
    &&& box_obj_enc_ok(o.object_items.replies)
    &&& ools_enc_ok(o.object_items.tag)
    &&& ools_enc_ok(o.object_items.to)
    &&& date_enc_ok(o.object_items.end_time)
    &&& date_enc_ok(o.object_items.published)
    &&& date_enc_ok(o.object_items.updated)
    &&& box_obj_enc_ok(o.object_items.describes)
    &&& ools_enc_ok(o.activity_items.actor)
    &&& ools_enc_ok(o.activity_items.instrument)
    &&& ools_enc_ok(o.activity_items.origin)
    &&& ools_enc_ok(o.activity_items.object)
    &&& ools_enc_ok(o.activity_items.result)
    &&& ools_enc_ok(o.activity_items.target)
    &&& box_ool_enc_ok(o.collection_items.current)
    &&& box_ool_enc_ok(o.collection_items.first)
    &&& box_ool_enc_ok(o.collection_items.last)
    &&& ools_enc_ok(o.collection_items.items)
    &&& ools_enc_ok(o.ordered_collection_items.ordered_items)
    &&& box_ool_enc_ok(o.collection_page_items.next)
    &&& box_ool_enc_ok(o.collection_page_items.prev)
    &&& box_ool_enc_ok(o.collection_page_items.part_of)
    &&& box_ool_enc_ok(o.relationship_items.subject)
    &&& ools_enc_ok(o.relationship_items.relationship)
    &&& date_enc_ok(o.tombstone_items.deleted)
    &&& ools_enc_ok(o.question_items.one_of)
    &&& ools_enc_ok(o.question_items.any_of)
}

/// `w` is the wire shape that the object `o` is written as.
pub open spec fn obj_enc(o: model::Object, w: wire::Object) -> bool
    decreases o,
{
    &&& ctx_opt_corr(o.schema_context, w.schema_context)
    &&& w.id == o.id
    &&& lax_shape(o.typ@, w.typ)
    &&& ools_enc(o.object_items.attachment, w.attachment)
    &&& ools_enc(o.object_items.attributed_to, w.attributed_to)
    &&& ools_enc(o.object_items.audience, w.audience)
    &&& ools_enc(o.object_items.bcc, w.bcc)
    &&& ools_enc(o.object_items.bto, w.bto)
    &&& ools_enc(o.object_items.cc, w.cc)
    &&& ools_enc(o.object_items.context, w.context)
    &&& ools_enc(o.object_items.generator, w.generator)
    &&& ools_enc(o.object_items.icon, w.icon)
    &&& ools_enc(o.object_items.image, w.image)
    &&& ools_enc(o.object_items.in_reply_to, w.in_reply_to)
    &&& ools_enc(o.object_items.location, w.location)
    &&& ools_enc(o.object_items.preview, w.preview)
    &&& box_obj_enc(o.object_items.replies, w.replies)
    &&& ools_enc(o.object_items.tag, w.tag)
    &&& ools_enc(o.object_items.to, w.to)
    &&& url_enc(o.object_items.url, w.url)
    &&& lax_shape(o.object_items.content@, w.content)
    &&& map_enc(o.object_items.content_map, w.content_map)
    &&& lax_shape(o.object_items.name@, w.name)
    &&& map_enc(o.object_items.name_map, w.name_map)
    &&& w.duration == o.object_items.duration
    &&& lax_shape(o.object_items.media_type@, w.media_type)
    &&& date_enc(o.object_items.end_time, w.end_time)
    &&& date_enc(o.object_items.published, w.published)
    &&& lax_shape(o.object_items.summary@, w.summary)
    &&& map_enc(o.object_items.summary_map, w.summary_map)
    &&& date_enc(o.object_items.updated, w.updated)
    &&& box_obj_enc(o.object_items.describes, w.describes)
    &&& ools_enc(o.activity_items.actor, w.actor)
    &&& ools_enc(o.activity_items.instrument, w.instrument)
    &&& ools_enc(o.activity_items.origin, w.origin)
    &&& ools_enc(o.activity_items.object, w.object)
    &&& ools_enc(o.activity_items.result, w.result)
    &&& ools_enc(o.activity_items.target, w.target)
    &&& w.total_items == o.collection_items.total_items
    &&& box_ool_enc(o.collection_items.current, w.current)
    &&& box_ool_enc(o.collection_items.first, w.first)
    &&& box_ool_enc(o.collection_items.last, w.last)
    &&& ools_enc(o.collection_items.items, w.items)
    &&& ools_enc(o.ordered_collection_items.ordered_items, w.ordered_items)
    &&& box_ool_enc(o.collection_page_items.next, w.next)
    &&& box_ool_enc(o.collection_page_items.prev, w.prev)
    &&& box_ool_enc(o.collection_page_items.part_of, w.part_of)
    &&& w.start_index == o.ordered_collection_page_items.start_index
    &&& box_ool_enc(o.relationship_items.subject, w.subject)
    &&& ools_enc(o.relationship_items.relationship, w.relationship)
    &&& lax_shape(o.tombstone_items.former_type@, w.former_type)
    &&& date_enc(o.tombstone_items.deleted, w.deleted)
    &&& ools_enc(o.question_items.one_of, w.one_of)
    &&& ools_enc(o.question_items.any_of, w.any_of)
    &&& w.closed == o.question_items.closed
    &&& w.accuracy == o.place_items.accuracy
    &&& w.altitude == o.place_items.altitude
    &&& w.latitute == o.place_items.latitute
    &&& w.longitute == o.place_items.longitute
    &&& w.radius == o.place_items.radius
    &&& w.units == o.place_items.units
    &&& w.manually_approves_followers == o.activity_streams_ext_items.manually_approves_followers
    &&& lax_shape(o.activity_streams_ext_items.also_known_as@, w.also_known_as)
    &&& w.moved_to == o.activity_streams_ext_items.moved_to
    &&& w.sensitive == o.activity_streams_ext_items.sensitive
    &&& w.featured == o.mastodon_ext_items.featured
    &&& w.featured_tags == o.mastodon_ext_items.featured_tags
    &&& w.discoverable == o.mastodon_ext_items.discoverable
    &&& w.suspended == o.mastodon_ext_items.suspended
    &&& w.devices == o.mastodon_ext_items.devices
    &&& key_opt_corr(o.security_items.public_key, w.public_key)
    &&& w.value == o.property_items.value
    &&& actor_enc(o.actor_items, w)
}

/// Every nested value of the wire object can be read.
pub open spec fn obj_dec_ok(w: wire::Object) -> bool
    decreases w,
{
    &&& ools_dec_ok(w.attachment)
    &&& ools_dec_ok(w.attributed_to)
    &&& ools_dec_ok(w.audience)
    &&& ools_dec_ok(w.bcc)
    &&& ools_dec_ok(w.bto)
    &&& ools_dec_ok(w.cc)
    &&& ools_dec_ok(w.context)
    &&& ools_dec_ok(w.generator)
    &&& ools_dec_ok(w.icon)
    &&& ools_dec_ok(w.image)
    &&& ools_dec_ok(w.in_reply_to)
    &&& ools_dec_ok(w.location)
    &&& ools_dec_ok(w.preview)
    &&& box_obj_dec_ok(w.replies)
    &&& ools_dec_ok(w.tag)
    &&& ools_dec_ok(w.to)
    &&& date_dec_ok(w.end_time)
    &&& date_dec_ok(w.published)
    &&& date_dec_ok(w.updated)
    &&& box_obj_dec_ok(w.describes)
    &&& ools_dec_ok(w.actor)
    &&& ools_dec_ok(w.instrument)
    &&& ools_dec_ok(w.origin)
    &&& ools_dec_ok(w.object)
    &&& ools_dec_ok(w.result)
    &&& ools_dec_ok(w.target)
    &&& box_ool_dec_ok(w.current)
    &&& box_ool_dec_ok(w.first)
    &&& box_ool_dec_ok(w.last)
    &&& ools_dec_ok(w.items)
    &&& ools_dec_ok(w.ordered_items)
    &&& box_ool_dec_ok(w.next)
    &&& box_ool_dec_ok(w.prev)
    &&& box_ool_dec_ok(w.part_of)
    &&& box_ool_dec_ok(w.subject)
    &&& ools_dec_ok(w.relationship)
    &&& date_dec_ok(w.deleted)
    &&& ools_dec_ok(w.one_of)
    &&& ools_dec_ok(w.any_of)
}

/// `o` is the object that the wire object `w` is read as.
pub open spec fn obj_dec(w: wire::Object, o: model::Object) -> bool
    decreases w,
{
    &&& ctx_opt_corr(o.schema_context, w.schema_context)
    &&& o.id == w.id
    &&& o.typ@ == lax_items(w.typ)
    &&& ools_dec(w.attachment, o.object_items.attachment)
    &&& ools_dec(w.attributed_to, o.object_items.attributed_to)
    &&& ools_dec(w.audience, o.object_items.audience)
    &&& ools_dec(w.bcc, o.object_items.bcc)
    &&& ools_dec(w.bto, o.object_items.bto)
    &&& ools_dec(w.cc, o.object_items.cc)
    &&& ools_dec(w.context, o.object_items.context)
    &&& ools_dec(w.generator, o.object_items.generator)
    &&& ools_dec(w.icon, o.object_items.icon)
    &&& ools_dec(w.image, o.object_items.image)
    &&& ools_dec(w.in_reply_to, o.object_items.in_reply_to)
    &&& ools_dec(w.location, o.object_items.location)
    &&& ools_dec(w.preview, o.object_items.preview)
    &&& box_obj_dec(w.replies, o.object_items.replies)
    &&& ools_dec(w.tag, o.object_items.tag)
    &&& ools_dec(w.to, o.object_items.to)
    &&& url_dec(w.url, o.object_items.url)
    &&& o.object_items.content@ == lax_items(w.content)
    &&& map_dec(w.content_map, o.object_items.content_map)
    &&& o.object_items.name@ == lax_items(w.name)
    &&& map_dec(w.name_map, o.object_items.name_map)
    &&& o.object_items.duration == w.duration
    &&& o.object_items.media_type@ == lax_items(w.media_type)
    &&& date_dec(w.end_time, o.object_items.end_time)
    &&& date_dec(w.published, o.object_items.published)
    &&& o.object_items.summary@ == lax_items(w.summary)
    &&& map_dec(w.summary_map, o.object_items.summary_map)
    &&& date_dec(w.updated, o.object_items.updated)
    &&& box_obj_dec(w.describes, o.object_items.describes)
    &&& ools_dec(w.actor, o.activity_items.actor)
    &&& ools_dec(w.instrument, o.activity_items.instrument)
    &&& ools_dec(w.origin, o.activity_items.origin)
    &&& ools_dec(w.object, o.activity_items.object)
    &&& ools_dec(w.result, o.activity_items.result)
    &&& ools_dec(w.target, o.activity_items.target)
    &&& o.collection_items.total_items == w.total_items
    &&& box_ool_dec(w.current, o.collection_items.current)
    &&& box_ool_dec(w.first, o.collection_items.first)
    &&& box_ool_dec(w.last, o.collection_items.last)
    &&& ools_dec(w.items, o.collection_items.items)
    &&& ools_dec(w.ordered_items, o.ordered_collection_items.ordered_items)
    &&& box_ool_dec(w.next, o.collection_page_items.next)
    &&& box_ool_dec(w.prev, o.collection_page_items.prev)
    &&& box_ool_dec(w.part_of, o.collection_page_items.part_of)
    &&& o.ordered_collection_page_items.start_index == w.start_index
    &&& box_ool_dec(w.subject, o.relationship_items.subject)
    &&& ools_dec(w.relationship, o.relationship_items.relationship)
    &&& o.tombstone_items.former_type@ == lax_items(w.former_type)
    &&& date_dec(w.deleted, o.tombstone_items.deleted)
    &&& ools_dec(w.one_of, o.question_items.one_of)
    &&& ools_dec(w.any_of, o.question_items.any_of)
    &&& o.question_items.closed == w.closed
    &&& o.place_items.accuracy == w.accuracy
    &&& o.place_items.altitude == w.altitude
    &&& o.place_items.latitute == w.latitute
    &&& o.place_items.longitute == w.longitute
    &&& o.place_items.radius == w.radius
    &&& o.place_items.units == w.units
    &&& o.activity_streams_ext_items.manually_approves_followers == w.manually_approves_followers
    &&& o.activity_streams_ext_items.also_known_as@ == lax_items(w.also_known_as)
    &&& o.activity_streams_ext_items.moved_to == w.moved_to
    &&& o.activity_streams_ext_items.sensitive == w.sensitive
    &&& o.mastodon_ext_items.featured == w.featured
    &&& o.mastodon_ext_items.featured_tags == w.featured_tags
    &&& o.mastodon_ext_items.discoverable == w.discoverable
    &&& o.mastodon_ext_items.suspended == w.suspended
    &&& o.mastodon_ext_items.devices == w.devices
    &&& key_opt_corr(o.security_items.public_key, w.public_key)
    &&& o.property_items.value == w.value
    &&& actor_dec(w, o.actor_items)
}

/// Every date of the object reads back from its text as itself, and no
/// link that is written as a bare IRI carries a context.
pub open spec fn obj_stable(o: model::Object) -> bool
    decreases o,
{
    &&& ools_stable(o.object_items.attachment)
    &&& ools_stable(o.object_items.attributed_to)
    &&& ools_stable(o.object_items.audience)
    &&& ools_stable(o.object_items.bcc)
    &&& ools_stable(o.object_items.bto)
    &&& ools_stable(o.object_items.cc)
    &&& ools_stable(o.object_items.context)
    &&& ools_stable(o.object_items.generator)
    &&& ools_stable(o.object_items.icon)
    &&& ools_stable(o.object_items.image)
    &&& ools_stable(o.object_items.in_reply_to)
    &&& ools_stable(o.object_items.location)
    &&& ools_stable(o.object_items.preview)
    &&& box_obj_stable(o.object_items.replies)
    &&& ools_stable(o.object_items.tag)
    &&& ools_stable(o.object_items.to)
    &&& url_stable(o.object_items.url)
    &&& date_stable(o.object_items.end_time)
    &&& date_stable(o.object_items.published)
    &&& date_stable(o.object_items.updated)
    &&& box_obj_stable(o.object_items.describes)
    &&& ools_stable(o.activity_items.actor)
    &&& ools_stable(o.activity_items.instrument)
    &&& ools_stable(o.activity_items.origin)
    &&& ools_stable(o.activity_items.object)
    &&& ools_stable(o.activity_items.result)
    &&& ools_stable(o.activity_items.target)
    &&& box_ool_stable(o.collection_items.current)
    &&& box_ool_stable(o.collection_items.first)
    &&& box_ool_stable(o.collection_items.last)
    &&& ools_stable(o.collection_items.items)
    &&& ools_stable(o.ordered_collection_items.ordered_items)
    &&& box_ool_stable(o.collection_page_items.next)
    &&& box_ool_stable(o.collection_page_items.prev)
    &&& box_ool_stable(o.collection_page_items.part_of)
    &&& box_ool_stable(o.relationship_items.subject)
    &&& ools_stable(o.relationship_items.relationship)
    &&& date_stable(o.tombstone_items.deleted)
    &&& ools_stable(o.question_items.one_of)
    &&& ools_stable(o.question_items.any_of)
}

// ---------------------------------------------------------------- conversions

/// Writes an object or a link; a link goes through the compaction rule.
pub fn ool_to_wire(x: model::ObjectOrLink) -> (r: Result<wire::ObjectOrLink, ConvError>)
    ensures
        r is Ok <==> ool_enc_ok(x),
        r matches Ok(w) ==> ool_enc(x, w),
        r matches Err(e) ==> e == ConvError::DateOutOfRange,
    decreases x,
{
    match x {
        model::ObjectOrLink::Object(o) => match object_to_wire(o) {
            Ok(wo) => Ok(wire::ObjectOrLink::Object(Box::new(wo))),
            Err(e) => Err(e),
        },
        model::ObjectOrLink::Link(l) => match link_ref_to_wire(l) {
            wire::LinkOrUri::Uri(s) => Ok(wire::ObjectOrLink::Uri(s)),
            wire::LinkOrUri::Link(wl) => Ok(wire::ObjectOrLink::Link(wl)),
        },
    }
}

/// Reads an object, a full link or a bare IRI.
pub fn ool_to_domain(w: wire::ObjectOrLink) -> (r: Result<model::ObjectOrLink, ConvError>)
    ensures
        r is Ok <==> ool_dec_ok(w),
        r matches Ok(x) ==> ool_dec(w, x),
        r matches Err(e) ==> e == ConvError::InvalidDate,
    decreases w,
{
    match w {
        wire::ObjectOrLink::Uri(s) => Ok(model::ObjectOrLink::Link(model::Link::from_href(s))),
        wire::ObjectOrLink::Link(wl) => Ok(model::ObjectOrLink::Link(link_to_domain(wl))),
        wire::ObjectOrLink::Object(wo) => match object_to_domain(*wo) {
            Ok(o) => Ok(model::ObjectOrLink::Object(o)),
            Err(e) => Err(e),
        },
    }
}

/// Writes a sequence of objects or links as a one-or-many wire value.
pub fn ools_to_wire(v: Vec<model::ObjectOrLink>) -> (r: Result<
    Option<Lax<wire::ObjectOrLink>>,
    ConvError,
>)
    ensures
        r is Ok <==> ools_enc_ok(v),
        r matches Ok(l) ==> ools_enc(v, l),
        r matches Err(e) ==> e == ConvError::DateOutOfRange,
    decreases v,
{
    let ghost gv = v;
    let n = v.len();
    let mut rest = v;
    let mut out: Vec<wire::ObjectOrLink> = Vec::new();
    let mut k: usize = 0;
    while k < n
        invariant
            n == gv.len(),
            k <= n,
            rest@ == gv@.subrange(k as int, n as int),
            out@.len() == k,
            forall|i: int| 0 <= i < k ==> ool_enc_ok(#[trigger] gv[i]) && ool_enc(gv[i], out@[i]),
            v == gv,
        decreases n - k,
    {
        let item = rest.remove(0);
        assert(item == gv[k as int]);
        proof {
            vstd::std_specs::vec::axiom_vec_index_decreases(gv, k as int);
        }
        match ool_to_wire(item) {
            Ok(w) => out.push(w),
            Err(e) => {
                return Err(e);
            },
        }
        k = k + 1;
    }
    let ghost ws = out@;
    let r = to_lax_array(out);
    proof {
        if n == 1 {
            assert(ool_enc(gv[0], ws[0]));
        }
    }
    Ok(r)
}

/// Reads a one-or-many wire value as a sequence of objects or links.
pub fn ools_to_domain(l: Option<Lax<wire::ObjectOrLink>>) -> (r: Result<
    Vec<model::ObjectOrLink>,
    ConvError,
>)
    ensures
        r is Ok <==> ools_dec_ok(l),
        r matches Ok(v) ==> ools_dec(l, v),
        r matches Err(e) ==> e == ConvError::InvalidDate,
    decreases l,
{
    match l {
        None => Ok(Vec::new()),
        Some(Lax::One(x)) => match ool_to_domain(x) {
            Ok(d) => {
                let mut v = Vec::new();
                v.push(d);
                Ok(v)
            },
            Err(e) => Err(e),
        },
        Some(Lax::Many(ws)) => {
            let ghost gw = ws;
            let n = ws.len();
            let mut rest = ws;
            let mut out: Vec<model::ObjectOrLink> = Vec::new();
            let mut k: usize = 0;
            while k < n
                invariant
                    n == gw.len(),
                    k <= n,
                    rest@ == gw@.subrange(k as int, n as int),
                    out@.len() == k,
                    forall|i: int|
                        0 <= i < k ==> ool_dec_ok(#[trigger] gw[i]) && ool_dec(gw[i], out@[i]),
                    l == Some(Lax::Many(gw)),
                decreases n - k,
            {
                let item = rest.remove(0);
                assert(item == gw[k as int]);
                proof {
                    vstd::std_specs::vec::axiom_vec_index_decreases(gw, k as int);
                    assert(decreases_to!(l => l->0));
                    assert(decreases_to!(l->0 => l->0->Many_0));
                }
                match ool_to_domain(item) {
                    Ok(d) => out.push(d),
                    Err(e) => {
                        return Err(e);
                    },
                }
                k = k + 1;
            }
            Ok(out)
        },
    }
}

/// Writes an optional boxed object.
pub fn boxed_from_model_opt(b: Option<Box<model::Object>>) -> (r: Result<
    Option<Box<wire::Object>>,
    ConvError,
>)
    ensures
        r is Ok <==> box_obj_enc_ok(b),
        r matches Ok(w) ==> box_obj_enc(b, w),
        r matches Err(e) ==> e == ConvError::DateOutOfRange,
    decreases b,
{
    match b {
        None => Ok(None),
        Some(o) => match object_to_wire(*o) {
            Ok(w) => Ok(Some(Box::new(w))),
            Err(e) => Err(e),
        },
    }
}

/// Reads an optional boxed object.
pub fn boxed_to_model_opt(w: Option<Box<wire::Object>>) -> (r: Result<
    Option<Box<model::Object>>,
    ConvError,
>)
    ensures
        r is Ok <==> box_obj_dec_ok(w),
        r matches Ok(b) ==> box_obj_dec(w, b),
        r matches Err(e) ==> e == ConvError::InvalidDate,
    decreases w,
{
    match w {
        None => Ok(None),
        Some(wo) => match object_to_domain(*wo) {
            Ok(o) => Ok(Some(Box::new(o))),
            Err(e) => Err(e),
        },
    }
}

/// Writes an optional boxed object or link.
pub fn boxed_ool_to_wire(b: Option<Box<model::ObjectOrLink>>) -> (r: Result<
    Option<Box<wire::ObjectOrLink>>,
    ConvError,
>)
    ensures
        r is Ok <==> box_ool_enc_ok(b),
        r matches Ok(w) ==> box_ool_enc(b, w),
        r matches Err(e) ==> e == ConvError::DateOutOfRange,
    decreases b,
{
    match b {
        None => Ok(None),
        Some(x) => match ool_to_wire(*x) {
            Ok(w) => Ok(Some(Box::new(w))),
            Err(e) => Err(e),
        },
    }
}

/// Reads an optional boxed object or link.
pub fn boxed_ool_to_domain(w: Option<Box<wire::ObjectOrLink>>) -> (r: Result<
    Option<Box<model::ObjectOrLink>>,
    ConvError,
>)
    ensures
        r is Ok <==> box_ool_dec_ok(w),
        r matches Ok(b) ==> box_ool_dec(w, b),
        r matches Err(e) ==> e == ConvError::InvalidDate,
    decreases w,
{
    match w {
        None => Ok(None),
        Some(wx) => match ool_to_domain(*wx) {
            Ok(x) => Ok(Some(Box::new(x))),
            Err(e) => Err(e),
        },
    }
}

/// Writes an object as its flat wire shape.
#[verifier::spinoff_prover]
#[verifier::rlimit(100)]
pub fn object_to_wire(o: model::Object) -> (r: Result<wire::Object, ConvError>)
    ensures
        r is Ok <==> obj_enc_ok(o),
        r matches Ok(w) ==> obj_enc(o, w),
        r matches Err(e) ==> e == ConvError::DateOutOfRange,
    decreases o,
{
    let model::Object {
        schema_context,
        id,
        typ,
        object_items,
        actor_items,
        activity_items,
        collection_items,
        ordered_collection_items,
        collection_page_items,
        ordered_collection_page_items,
        relationship_items,
        tombstone_items,
        question_items,
        place_items,
        activity_streams_ext_items,
        mastodon_ext_items,
        security_items,
        property_items,
    } = o;
    let model::ObjectItems {
        attachment,
        attributed_to,
        audience,
        bcc,
        bto,
        cc,
        context,
        generator,
        icon,
        image,
        in_reply_to,
        location,
        preview,
        replies,
        tag,
        to,
        url,
        content,
        content_map,
        name,
        name_map,
        duration,
        media_type,
        end_time,
        published,
        summary,
        summary_map,
        updated,
        describes,
    } = object_items;
    let model::ActivityItems {
        actor,
        instrument,
        origin,
        object,
        result,
        target,
    } = activity_items;
    let model::CollectionItems {
        total_items,
        current,
        first,
        last,
        items,
    } = collection_items;
    let model::OrderedCollectionItems {
        ordered_items,
    } = ordered_collection_items;
    let model::CollectionPageItems {
        next,
        prev,
        part_of,
    } = collection_page_items;
    let model::OrderedCollectionPageItems {
        start_index,
    } = ordered_collection_page_items;
    let model::RelationshipItems {
        subject,
        relationship,
    } = relationship_items;
    let model::TombstoneItems {
        former_type,
        deleted,
    } = tombstone_items;
    let model::QuestionItems {
        one_of,
        any_of,
        closed,
    } = question_items;
    let model::PlaceItems {
        accuracy,
        altitude,
        latitute,
        longitute,
        radius,
        units,
    } = place_items;
    let model::ActivityStreamExtItems {
        manually_approves_followers,
        also_known_as,
        moved_to,
        sensitive,
    } = activity_streams_ext_items;
    let model::MastodonExtItems {
        featured,
        featured_tags,
        discoverable,
        suspended,
        devices,
    } = mastodon_ext_items;
    let model::SecurityItems {
        public_key,
    } = security_items;
    let model::PropertyItems {
        value,
    } = property_items;
    let schema_context = context_opt_to_wire(schema_context);
    let typ = to_lax_array(typ);
    let attachment = match ools_to_wire(attachment) {
        Ok(x) => x,
        Err(e) => {
            return Err(e);
        },
    };
    let attributed_to = match ools_to_wire(attributed_to) {
        Ok(x) => x,
        Err(e) => {
            return Err(e);
        },
    };
    let audience = match ools_to_wire(audience) {
        Ok(x) => x,
        Err(e) => {
            return Err(e);
        },
    };
    let bcc = match ools_to_wire(bcc) {
        Ok(x) => x,
        Err(e) => {
            return Err(e);
        },
    };
    let bto = match ools_to_wire(bto) {
        Ok(x) => x,
        Err(e) => {
            return Err(e);
        },
    };
    let cc = match ools_to_wire(cc) {
        Ok(x) => x,
        Err(e) => {
            return Err(e);
        },
    };
    let context = match ools_to_wire(context) {
        Ok(x) => x,
        Err(e) => {
            return Err(e);
        },
    };
    let generator = match ools_to_wire(generator) {
        Ok(x) => x,
        Err(e) => {
            return Err(e);
        },
    };
    let icon = match ools_to_wire(icon) {
        Ok(x) => x,
        Err(e) => {
            return Err(e);
        },
    };
    let image = match ools_to_wire(image) {
        Ok(x) => x,
        Err(e) => {
            return Err(e);
        },
    };
    let in_reply_to = match ools_to_wire(in_reply_to) {
        Ok(x) => x,
        Err(e) => {
            return Err(e);
        },
    };
    let location = match ools_to_wire(location) {
        Ok(x) => x,
        Err(e) => {
            return Err(e);
        },
    };
    let preview = match ools_to_wire(preview) {
        Ok(x) => x,
        Err(e) => {
            return Err(e);
        },
    };
    let replies = match boxed_from_model_opt(replies) {
        Ok(x) => x,
        Err(e) => {
            return Err(e);
        },
    };
    let tag = match ools_to_wire(tag) {
        Ok(x) => x,
        Err(e) => {
            return Err(e);
        },
    };
    let to = match ools_to_wire(to) {
        Ok(x) => x,
        Err(e) => {
            return Err(e);
        },
    };
    let url = url_to_wire(url);
    let content = to_lax_array(content);
    let content_map = map_to_wire(content_map);
    let name = to_lax_array(name);
    let name_map = map_to_wire(name_map);
    let media_type = to_lax_array(media_type);
    let end_time = match from_model_opt(end_time) {
        Ok(x) => x,
        Err(e) => {
            return Err(e);
        },
    };
    let published = match from_model_opt(published) {
        Ok(x) => x,
        Err(e) => {
            return Err(e);
        },
    };
    let summary = to_lax_array(summary);
    let summary_map = map_to_wire(summary_map);
    let updated = match from_model_opt(updated) {
        Ok(x) => x,
        Err(e) => {
            return Err(e);
        },
    };
    let describes = match boxed_from_model_opt(describes) {
        Ok(x) => x,
        Err(e) => {
            return Err(e);
        },
    };
    let actor = match ools_to_wire(actor) {
        Ok(x) => x,
        Err(e) => {
            return Err(e);
        },
    };
    let instrument = match ools_to_wire(instrument) {
        Ok(x) => x,
        Err(e) => {
            return Err(e);
        },
    };
    let origin = match ools_to_wire(origin) {
        Ok(x) => x,
        Err(e) => {
            return Err(e);
        },
    };
    let object = match ools_to_wire(object) {
        Ok(x) => x,
        Err(e) => {
            return Err(e);
        },
    };
    let result = match ools_to_wire(result) {
        Ok(x) => x,
        Err(e) => {
            return Err(e);
        },
    };
    let target = match ools_to_wire(target) {
        Ok(x) => x,
        Err(e) => {
            return Err(e);
        },
    };
    let current = match boxed_ool_to_wire(current) {
        Ok(x) => x,
        Err(e) => {
            return Err(e);
        },
    };
    let first = match boxed_ool_to_wire(first) {
        Ok(x) => x,
        Err(e) => {
            return Err(e);
        },
    };
    let last = match boxed_ool_to_wire(last) {
        Ok(x) => x,
        Err(e) => {
            return Err(e);
        },
    };
    let items = match ools_to_wire(items) {
        Ok(x) => x,
        Err(e) => {
            return Err(e);
        },
    };
    let ordered_items = match ools_to_wire(ordered_items) {
        Ok(x) => x,
        Err(e) => {
            return Err(e);
        },
    };
    let next = match boxed_ool_to_wire(next) {
        Ok(x) => x,
        Err(e) => {
            return Err(e);
        },
    };
    let prev = match boxed_ool_to_wire(prev) {
        Ok(x) => x,
        Err(e) => {
            return Err(e);
        },
    };
    let part_of = match boxed_ool_to_wire(part_of) {
        Ok(x) => x,
        Err(e) => {
            return Err(e);
        },
    };
    let subject = match boxed_ool_to_wire(subject) {
        Ok(x) => x,
        Err(e) => {
            return Err(e);
        },
    };
    let relationship = match ools_to_wire(relationship) {
        Ok(x) => x,
        Err(e) => {
            return Err(e);
        },
    };
    let former_type = to_lax_array(former_type);
    let deleted = match from_model_opt(deleted) {
        Ok(x) => x,
        Err(e) => {
            return Err(e);
        },
    };
    let one_of = match ools_to_wire(one_of) {
        Ok(x) => x,
        Err(e) => {
            return Err(e);
        },
    };
    let any_of = match ools_to_wire(any_of) {
        Ok(x) => x,
        Err(e) => {
            return Err(e);
        },
    };
    let also_known_as = to_lax_array(also_known_as);
    let public_key = key_opt_to_wire(public_key);
    let (inbox, outbox, following, followers, preferred_username, endpoints) = match actor_items {
        Some(a) => (
            Some(a.inbox),
            Some(a.outbox),
            Some(a.following),
            Some(a.followers),
            a.preferred_username,
            map_to_wire(a.endpoints),
        ),
        None => (None, None, None, None, None, None),
    };
    Ok(wire::Object {
        schema_context,
        id,
        typ,
        attachment,
        attributed_to,
        audience,
        bcc,
        bto,
        cc,
        context,
        generator,
        icon,
        image,
        in_reply_to,
        location,
        preview,
        replies,
        tag,
        to,
        url,
        content,
        content_map,
        name,
        name_map,
        duration,
        media_type,
        end_time,
        published,
        summary,
        summary_map,
        updated,
        describes,
        inbox,
        outbox,
        following,
        followers,
        preferred_username,
        endpoints,
        actor,
        instrument,
        origin,
        object,
        result,
        target,
        total_items,
        current,
        first,
        last,
        items,
        ordered_items,
        next,
        prev,
        part_of,
        start_index,
        subject,
        relationship,
        former_type,
        deleted,
        one_of,
        any_of,
        closed,
        accuracy,
        altitude,
        latitute,
        longitute,
        radius,
        units,
        manually_approves_followers,
        also_known_as,
        moved_to,
        sensitive,
        featured,
        featured_tags,
        discoverable,
        suspended,
        devices,
        public_key,
        value,
    })
}

/// Reads an object from its flat wire shape; a partial set of the actor
/// collection links is dropped.
#[verifier::spinoff_prover]
#[verifier::rlimit(100)]
pub fn object_to_domain(w: wire::Object) -> (r: Result<model::Object, ConvError>)
    ensures
        r is Ok <==> obj_dec_ok(w),
        r matches Ok(o) ==> obj_dec(w, o),
        r matches Err(e) ==> e == ConvError::InvalidDate,
    decreases w,
{
    let wire::Object {
        schema_context,
        id,
        typ,
        attachment,
        attributed_to,
        audience,
        bcc,
        bto,
        cc,
        context,
        generator,
        icon,
        image,
        in_reply_to,
        location,
        preview,
        replies,
        tag,
        to,
        url,
        content,
        content_map,
        name,
        name_map,
        duration,
        media_type,
        end_time,
        published,
        summary,
        summary_map,
        updated,
        describes,
        inbox,
        outbox,
        following,
        followers,
        preferred_username,
        endpoints,
        actor,
        instrument,
        origin,
        object,
        result,
        target,
        total_items,
        current,
        first,
        last,
        items,
        ordered_items,
        next,
        prev,
        part_of,
        start_index,
        subject,
        relationship,
        former_type,
        deleted,
        one_of,
        any_of,
        closed,
        accuracy,
        altitude,
        latitute,
        longitute,
        radius,
        units,
        manually_approves_followers,
        also_known_as,
        moved_to,
        sensitive,
        featured,
        featured_tags,
        discoverable,
        suspended,
        devices,
        public_key,
        value,
    } = w;
    let schema_context = context_opt_to_domain(schema_context);
    let typ = from_lax_array(typ);
    let attachment = match ools_to_domain(attachment) {
        Ok(x) => x,
        Err(e) => {
            return Err(e);
        },
    };
    let attributed_to = match ools_to_domain(attributed_to) {
        Ok(x) => x,
        Err(e) => {
            return Err(e);
        },
    };
    let audience = match ools_to_domain(audience) {
        Ok(x) => x,
        Err(e) => {
            return Err(e);
        },
    };
    let bcc = match ools_to_domain(bcc) {
        Ok(x) => x,
        Err(e) => {
            return Err(e);
        },
    };
    let bto = match ools_to_domain(bto) {
        Ok(x) => x,
        Err(e) => {
            return Err(e);
        },
    };
    let cc = match ools_to_domain(cc) {
        Ok(x) => x,
        Err(e) => {
            return Err(e);
        },
    };
    let context = match ools_to_domain(context) {
        Ok(x) => x,
        Err(e) => {
            return Err(e);
        },
    };
    let generator = match ools_to_domain(generator) {
        Ok(x) => x,
        Err(e) => {
            return Err(e);
        },
    };
    let icon = match ools_to_domain(icon) {
        Ok(x) => x,
        Err(e) => {
            return Err(e);
        },
    };
    let image = match ools_to_domain(image) {
        Ok(x) => x,
        Err(e) => {
            return Err(e);
        },
    };
    let in_reply_to = match ools_to_domain(in_reply_to) {
        Ok(x) => x,
        Err(e) => {
            return Err(e);
        },
    };
    let location = match ools_to_domain(location) {
        Ok(x) => x,
        Err(e) => {
            return Err(e);
        },
    };
    let preview = match ools_to_domain(preview) {
        Ok(x) => x,
        Err(e) => {
            return Err(e);
        },
    };
    let replies = match boxed_to_model_opt(replies) {
        Ok(x) => x,
        Err(e) => {
            return Err(e);
        },
    };
    let tag = match ools_to_domain(tag) {
        Ok(x) => x,
        Err(e) => {
            return Err(e);
        },
    };
    let to = match ools_to_domain(to) {
        Ok(x) => x,
        Err(e) => {
            return Err(e);
        },
    };
    let url = url_to_domain(url);
    let content = from_lax_array(content);
    let content_map = map_to_domain(content_map);
    let name = from_lax_array(name);
    let name_map = map_to_domain(name_map);
    let media_type = from_lax_array(media_type);
    let end_time = match to_model_opt(end_time) {
        Ok(x) => x,
        Err(e) => {
            return Err(e);
        },
    };
    let published = match to_model_opt(published) {
        Ok(x) => x,
        Err(e) => {
            return Err(e);
        },
    };
    let summary = from_lax_array(summary);
    let summary_map = map_to_domain(summary_map);
    let updated = match to_model_opt(updated) {
        Ok(x) => x,
        Err(e) => {
            return Err(e);
        },
    };
    let describes = match boxed_to_model_opt(describes) {
        Ok(x) => x,
        Err(e) => {
            return Err(e);
        },
    };
    let actor = match ools_to_domain(actor) {
        Ok(x) => x,
        Err(e) => {
            return Err(e);
        },
    };
    let instrument = match ools_to_domain(instrument) {
        Ok(x) => x,
        Err(e) => {
            return Err(e);
        },
    };
    let origin = match ools_to_domain(origin) {
        Ok(x) => x,
        Err(e) => {
            return Err(e);
        },
    };
    let object = match ools_to_domain(object) {
        Ok(x) => x,
        Err(e) => {
            return Err(e);
        },
    };
    let result = match ools_to_domain(result) {
        Ok(x) => x,
        Err(e) => {
            return Err(e);
        },
    };
    let target = match ools_to_domain(target) {
        Ok(x) => x,
        Err(e) => {
            return Err(e);
        },
    };
    let current = match boxed_ool_to_domain(current) {
        Ok(x) => x,
        Err(e) => {
            return Err(e);
        },
    };
    let first = match boxed_ool_to_domain(first) {
        Ok(x) => x,
        Err(e) => {
            return Err(e);
        },
    };
    let last = match boxed_ool_to_domain(last) {
        Ok(x) => x,
        Err(e) => {
            return Err(e);
        },
    };
    let items = match ools_to_domain(items) {
        Ok(x) => x,
        Err(e) => {
            return Err(e);
        },
    };
    let ordered_items = match ools_to_domain(ordered_items) {
        Ok(x) => x,
        Err(e) => {
            return Err(e);
        },
    };
    let next = match boxed_ool_to_domain(next) {
        Ok(x) => x,
        Err(e) => {
            return Err(e);
        },
    };
    let prev = match boxed_ool_to_domain(prev) {
        Ok(x) => x,
        Err(e) => {
            return Err(e);
        },
    };
    let part_of = match boxed_ool_to_domain(part_of) {
        Ok(x) => x,
        Err(e) => {
            return Err(e);
        },
    };
    let subject = match boxed_ool_to_domain(subject) {
        Ok(x) => x,
        Err(e) => {
            return Err(e);
        },
    };
    let relationship = match ools_to_domain(relationship) {
        Ok(x) => x,
        Err(e) => {
            return Err(e);
        },
    };
    let former_type = from_lax_array(former_type);
    let deleted = match to_model_opt(deleted) {
        Ok(x) => x,
        Err(e) => {
            return Err(e);
        },
    };
    let one_of = match ools_to_domain(one_of) {
        Ok(x) => x,
        Err(e) => {
            return Err(e);
        },
    };
    let any_of = match ools_to_domain(any_of) {
        Ok(x) => x,
        Err(e) => {
            return Err(e);
        },
    };
    let also_known_as = from_lax_array(also_known_as);
    let public_key = key_opt_to_domain(public_key);
    let actor_items = match (inbox, outbox, followers, following) {
        (Some(inbox), Some(outbox), Some(followers), Some(following)) => Some(
            model::ActorItems {
                inbox,
                outbox,
                following,
                followers,
                preferred_username,
                endpoints: map_to_domain(endpoints),
            },
        ),
        _ => None,
    };
    Ok(model::Object {
        schema_context,
        id,
        typ,
        object_items: model::ObjectItems {
            attachment,
            attributed_to,
            audience,
            bcc,
            bto,
            cc,
            context,
            generator,
            icon,
            image,
            in_reply_to,
            location,
            preview,
            replies,
            tag,
            to,
            url,
            content,
            content_map,
            name,
            name_map,
            duration,
            media_type,
            end_time,
            published,
            summary,
            summary_map,
            updated,
            describes,
        },
        actor_items,
        activity_items: model::ActivityItems {
            actor,
            instrument,
            origin,
            object,
            result,
            target,
        },
        collection_items: model::CollectionItems {
            total_items,
            current,
            first,
            last,
            items,
        },
        ordered_collection_items: model::OrderedCollectionItems {
            ordered_items,
        },
        collection_page_items: model::CollectionPageItems {
            next,
            prev,
            part_of,
        },
        ordered_collection_page_items: model::OrderedCollectionPageItems {
            start_index,
        },
        relationship_items: model::RelationshipItems {
            subject,
            relationship,
        },
        tombstone_items: model::TombstoneItems {
            former_type,
            deleted,
        },
        question_items: model::QuestionItems {
            one_of,
            any_of,
            closed,
        },
        place_items: model::PlaceItems {
            accuracy,
            altitude,
            latitute,
            longitute,
            radius,
            units,
        },
        activity_streams_ext_items: model::ActivityStreamExtItems {
            manually_approves_followers,
            also_known_as,
            moved_to,
            sensitive,
        },
        mastodon_ext_items: model::MastodonExtItems {
            featured,
            featured_tags,
            discoverable,
            suspended,
            devices,
        },
        security_items: model::SecurityItems {
            public_key,
        },
        property_items: model::PropertyItems {
            value,
        },
    })
}

} // verus!
