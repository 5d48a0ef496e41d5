use vstd::prelude::*;
use crate::json::Json;
use crate::lax::Lax;

verus! {

/// The wire shape of `@context`.
#[derive(Debug, PartialEq, Eq)]
pub enum Context {
    Single(Iri),
    Mix(Vec<Context>),
    TermDefs(Vec<(String, Iri)>),
}

/// The wire shape of an IRI: a string or a type-coercion object.
#[derive(Debug, PartialEq, Eq)]
pub enum Iri {
    Direct(String),
    TypeCoercion(TypeCoercion),
}

/// A type-coercion term definition (`@id`, `@type`).
#[derive(Debug, PartialEq, Eq)]
pub struct TypeCoercion {
    pub id: String,
    pub typ: Option<String>,
}

/// The wire shape of a public key (`id`, `owner`, `publicKeyPem`).
#[derive(Debug, PartialEq, Eq)]
pub struct Key {
    pub id: String,
    pub owner: String,
    pub public_key_pem: Option<String>,
}

/// The wire shape of a link; `href` is the one mandatory property.
#[derive(Debug, PartialEq, Eq)]
pub struct Link {
    pub schema_context: Option<Context>,
    pub id: Option<String>,
    pub typ: Option<Lax<String>>,
    pub href: String,
    pub height: Option<u64>,
    pub hreflang: Option<String>,
    pub media_type: Option<Lax<String>>,
    pub rel: Option<Lax<String>>,
    pub width: Option<u64>,
}

/// A link written as a bare IRI or as a full link.
#[derive(Debug, PartialEq, Eq)]
pub enum LinkOrUri {
    Uri(String),
    Link(Link),
}

/// An object, a full link or a bare IRI, tried in the order bare IRI,
/// link, object when read.
#[derive(Debug, PartialEq, Eq)]
pub enum ObjectOrLink {
    Uri(String),
    Link(Link),
    Object(Box<Object>),
}

/// The flat wire shape of an object: one optional field per property.
#[derive(Debug, PartialEq, Eq)]
pub struct Object {
    pub schema_context: Option<Context>,
    pub id: Option<String>,
    pub typ: Option<Lax<String>>,
    pub attachment: Option<Lax<ObjectOrLink>>,
    pub attributed_to: Option<Lax<ObjectOrLink>>,
    pub audience: Option<Lax<ObjectOrLink>>,
    pub bcc: Option<Lax<ObjectOrLink>>,
    pub bto: Option<Lax<ObjectOrLink>>,
    pub cc: Option<Lax<ObjectOrLink>>,
    pub context: Option<Lax<ObjectOrLink>>,
    pub generator: Option<Lax<ObjectOrLink>>,
    pub icon: Option<Lax<ObjectOrLink>>,
    pub image: Option<Lax<ObjectOrLink>>,
    pub in_reply_to: Option<Lax<ObjectOrLink>>,
    pub location: Option<Lax<ObjectOrLink>>,
    pub preview: Option<Lax<ObjectOrLink>>,
    pub replies: Option<Box<Object>>,
    pub tag: Option<Lax<ObjectOrLink>>,
    pub to: Option<Lax<ObjectOrLink>>,
    pub url: Option<LinkOrUri>,
    pub content: Option<Lax<String>>,
    pub content_map: Option<Vec<(String, String)>>,
    pub name: Option<Lax<String>>,
    pub name_map: Option<Vec<(String, String)>>,
    pub duration: Option<String>,
    pub media_type: Option<Lax<String>>,
    pub end_time: Option<String>,
    pub published: Option<String>,
    pub summary: Option<Lax<String>>,
    pub summary_map: Option<Vec<(String, String)>>,
    pub updated: Option<String>,
    pub describes: Option<Box<Object>>,
    pub inbox: Option<String>,
    pub outbox: Option<String>,
    pub following: Option<String>,
    pub followers: Option<String>,
    pub preferred_username: Option<String>,
    pub endpoints: Option<Vec<(String, String)>>,
    pub actor: Option<Lax<ObjectOrLink>>,
    pub instrument: Option<Lax<ObjectOrLink>>,
    pub origin: Option<Lax<ObjectOrLink>>,
    pub object: Option<Lax<ObjectOrLink>>,
    pub result: Option<Lax<ObjectOrLink>>,
    pub target: Option<Lax<ObjectOrLink>>,
    pub total_items: Option<u64>,
    pub current: Option<Box<ObjectOrLink>>,
    pub first: Option<Box<ObjectOrLink>>,
    pub last: Option<Box<ObjectOrLink>>,
    pub items: Option<Lax<ObjectOrLink>>,
    pub ordered_items: Option<Lax<ObjectOrLink>>,
    pub next: Option<Box<ObjectOrLink>>,
    pub prev: Option<Box<ObjectOrLink>>,
    pub part_of: Option<Box<ObjectOrLink>>,
    pub start_index: Option<u64>,
    pub subject: Option<Box<ObjectOrLink>>,
    pub relationship: Option<Lax<ObjectOrLink>>,
    pub former_type: Option<Lax<String>>,
    pub deleted: Option<String>,
    pub one_of: Option<Lax<ObjectOrLink>>,
    pub any_of: Option<Lax<ObjectOrLink>>,
    pub closed: Option<Json>,
    pub accuracy: Option<u64>,
    pub altitude: Option<u64>,
    pub latitute: Option<u64>,
    pub longitute: Option<u64>,
    pub radius: Option<u64>,
    pub units: Option<String>,
    pub manually_approves_followers: Option<bool>,
    pub also_known_as: Option<Lax<String>>,
    pub moved_to: Option<String>,
    pub sensitive: Option<bool>,
    pub featured: Option<String>,
    pub featured_tags: Option<String>,
    pub discoverable: Option<bool>,
    pub suspended: Option<bool>,
    pub devices: Option<String>,
    pub public_key: Option<Key>,
    pub value: Option<String>,
}

impl Object {
    /// A wire object with no property present.
    pub fn empty() -> (r: Object)
        ensures
            r.schema_context is None,
            r.id is None,
            r.typ is None,
            r.attachment is None,
            r.attributed_to is None,
            r.audience is None,
            r.bcc is None,
            r.bto is None,
            r.cc is None,
            r.context is None,
            r.generator is None,
            r.icon is None,
            r.image is None,
            r.in_reply_to is None,
            r.location is None,
            r.preview is None,
            r.replies is None,
            r.tag is None,
            r.to is None,
            r.url is None,
            r.content is None,
            r.content_map is None,
            r.name is None,
            r.name_map is None,
            r.duration is None,
            r.media_type is None,
            r.end_time is None,
            r.published is None,
            r.summary is None,
            r.summary_map is None,
            r.updated is None,
            r.describes is None,
            r.inbox is None,
            r.outbox is None,
            r.following is None,
            r.followers is None,
            r.preferred_username is None,
            r.endpoints is None,
            r.actor is None,
            r.instrument is None,
            r.origin is None,
            r.object is None,
            r.result is None,
            r.target is None,
            r.total_items is None,
            r.current is None,
            r.first is None,
            r.last is None,
            r.items is None,
            r.ordered_items is None,
            r.next is None,
            r.prev is None,
            r.part_of is None,
            r.start_index is None,
            r.subject is None,
            r.relationship is None,
            r.former_type is None,
            r.deleted is None,
            r.one_of is None,
            r.any_of is None,
            r.closed is None,
            r.accuracy is None,
            r.altitude is None,
            r.latitute is None,
            r.longitute is None,
            r.radius is None,
            r.units is None,
            r.manually_approves_followers is None,
            r.also_known_as is None,
            r.moved_to is None,
            r.sensitive is None,
            r.featured is None,
            r.featured_tags is None,
            r.discoverable is None,
            r.suspended is None,
            r.devices is None,
            r.public_key is None,
            r.value is None,
    {
        Object {
            schema_context: None,
            id: None,
            typ: None,
            attachment: None,
            attributed_to: None,
            audience: None,
            bcc: None,
            bto: None,
            cc: None,
            context: None,
            generator: None,
            icon: None,
            image: None,
            in_reply_to: None,
            location: None,
            preview: None,
            replies: None,
            tag: None,
            to: None,
            url: None,
            content: None,
            content_map: None,
            name: None,
            name_map: None,
            duration: None,
            media_type: None,
            end_time: None,
            published: None,
            summary: None,
            summary_map: None,
            updated: None,
            describes: None,
            inbox: None,
            outbox: None,
            following: None,
            followers: None,
            preferred_username: None,
            endpoints: None,
            actor: None,
            instrument: None,
            origin: None,
            object: None,
            result: None,
            target: None,
            total_items: None,
            current: None,
            first: None,
            last: None,
            items: None,
            ordered_items: None,
            next: None,
            prev: None,
            part_of: None,
            start_index: None,
            subject: None,
            relationship: None,
            former_type: None,
            deleted: None,
            one_of: None,
            any_of: None,
            closed: None,
            accuracy: None,
            altitude: None,
            latitute: None,
            longitute: None,
            radius: None,
            units: None,
            manually_approves_followers: None,
            also_known_as: None,
            moved_to: None,
            sensitive: None,
            featured: None,
            featured_tags: None,
            discoverable: None,
            suspended: None,
            devices: None,
            public_key: None,
            value: None,
        }
    }
}

} // verus!
