use vstd::prelude::*;
use crate::date::DateTime;
use crate::json::Json;

verus! {

/// A JSON-LD `@context`, kept as its syntactic shape.
#[derive(Debug, PartialEq, Eq)]
pub enum Context {
    Single(Iri),
    Mix(Vec<Context>),
    TermDefs(Vec<(String, Iri)>),
}

/// An IRI, written directly or as a type-coercion term definition.
#[derive(Debug, PartialEq, Eq)]
pub enum Iri {
    Direct(String),
    TypeCoercion { id: String, typ: Option<String> },
}

/// A public key of the security vocabulary.
#[derive(Debug, PartialEq, Eq)]
pub struct Key {
    pub id: String,
    pub owner: String,
    pub public_key_pem: Option<String>,
}

/// A link to a resource.
#[derive(Debug, PartialEq, Eq)]
pub struct Link {
    pub schema_context: Option<Context>,
    pub id: Option<String>,
    pub typ: Vec<String>,
    pub href: String,
    pub height: Option<u64>,
    pub hreflang: Option<String>,
    pub media_type: Vec<String>,
    pub rel: Vec<String>,
    pub width: Option<u64>,
}

/// An object, or a link to one (a bare IRI is a link with only `href`).
#[derive(Debug, PartialEq, Eq)]
pub enum ObjectOrLink {
    Object(Object),
    Link(Link),
}

/// An ActivityStreams object, with the properties of every vocabulary
/// layer that an object may carry at once.
#[derive(Debug, PartialEq, Eq)]
pub struct Object {
    pub schema_context: Option<Context>,
    pub id: Option<String>,
    pub typ: Vec<String>,
    pub object_items: ObjectItems,
    pub actor_items: Option<ActorItems>,
    pub activity_items: ActivityItems,
    pub collection_items: CollectionItems,
    pub ordered_collection_items: OrderedCollectionItems,
    pub collection_page_items: CollectionPageItems,
    pub ordered_collection_page_items: OrderedCollectionPageItems,
    pub relationship_items: RelationshipItems,
    pub tombstone_items: TombstoneItems,
    pub question_items: QuestionItems,
    pub place_items: PlaceItems,
    pub activity_streams_ext_items: ActivityStreamExtItems,
    pub mastodon_ext_items: MastodonExtItems,
    pub security_items: SecurityItems,
    pub property_items: PropertyItems,
}

/// Properties of every object.
#[derive(Debug, PartialEq, Eq)]
pub struct ObjectItems {
    pub attachment: Vec<ObjectOrLink>,
    pub attributed_to: Vec<ObjectOrLink>,
    pub audience: Vec<ObjectOrLink>,
    pub bcc: Vec<ObjectOrLink>,
    pub bto: Vec<ObjectOrLink>,
    pub cc: Vec<ObjectOrLink>,
    pub context: Vec<ObjectOrLink>,
    pub generator: Vec<ObjectOrLink>,
    pub icon: Vec<ObjectOrLink>,
    pub image: Vec<ObjectOrLink>,
    pub in_reply_to: Vec<ObjectOrLink>,
    pub location: Vec<ObjectOrLink>,
    pub preview: Vec<ObjectOrLink>,
    pub replies: Option<Box<Object>>,
    pub tag: Vec<ObjectOrLink>,
    pub to: Vec<ObjectOrLink>,
    pub url: Option<Link>,
    pub content: Vec<String>,
    pub content_map: Vec<(String, String)>,
    pub name: Vec<String>,
    pub name_map: Vec<(String, String)>,
    pub duration: Option<String>,
    pub media_type: Vec<String>,
    pub end_time: Option<DateTime>,
    pub published: Option<DateTime>,
    pub summary: Vec<String>,
    pub summary_map: Vec<(String, String)>,
    pub updated: Option<DateTime>,
    pub describes: Option<Box<Object>>,
}

/// Properties of an actor; the four collection links are present together or not at all.
#[derive(Debug, PartialEq, Eq)]
pub struct ActorItems {
    pub inbox: String,
    pub outbox: String,
    pub following: String,
    pub followers: String,
    pub preferred_username: Option<String>,
    pub endpoints: Vec<(String, String)>,
}

/// Properties of an activity.
#[derive(Debug, PartialEq, Eq)]
pub struct ActivityItems {
    pub actor: Vec<ObjectOrLink>,
    pub instrument: Vec<ObjectOrLink>,
    pub origin: Vec<ObjectOrLink>,
    pub object: Vec<ObjectOrLink>,
    pub result: Vec<ObjectOrLink>,
    pub target: Vec<ObjectOrLink>,
}

/// Properties of a collection.
#[derive(Debug, PartialEq, Eq)]
pub struct CollectionItems {
    pub total_items: Option<u64>,
    pub current: Option<Box<ObjectOrLink>>,
    pub first: Option<Box<ObjectOrLink>>,
    pub last: Option<Box<ObjectOrLink>>,
    pub items: Vec<ObjectOrLink>,
}

/// Properties of an ordered collection.
#[derive(Debug, PartialEq, Eq)]
pub struct OrderedCollectionItems {
    pub ordered_items: Vec<ObjectOrLink>,
}

/// Properties of a collection page.
#[derive(Debug, PartialEq, Eq)]
pub struct CollectionPageItems {
    pub next: Option<Box<ObjectOrLink>>,
    pub prev: Option<Box<ObjectOrLink>>,
    pub part_of: Option<Box<ObjectOrLink>>,
}

/// Properties of an ordered collection page.
#[derive(Debug, PartialEq, Eq)]
pub struct OrderedCollectionPageItems {
    pub start_index: Option<u64>,
}

/// Properties of a relationship.
#[derive(Debug, PartialEq, Eq)]
pub struct RelationshipItems {
    pub subject: Option<Box<ObjectOrLink>>,
    pub relationship: Vec<ObjectOrLink>,
}

/// Properties of a tombstone.
#[derive(Debug, PartialEq, Eq)]
pub struct TombstoneItems {
    pub former_type: Vec<String>,
    pub deleted: Option<DateTime>,
}

/// Properties of a question.
#[derive(Debug, PartialEq, Eq)]
pub struct QuestionItems {
    pub one_of: Vec<ObjectOrLink>,
    pub any_of: Vec<ObjectOrLink>,
    pub closed: Option<Json>,
}

/// Properties of a place; numbers are binary64 bit patterns.
#[derive(Debug, PartialEq, Eq)]
pub struct PlaceItems {
    pub accuracy: Option<u64>,
    pub altitude: Option<u64>,
    pub latitute: Option<u64>,
    pub longitute: Option<u64>,
    pub radius: Option<u64>,
    pub units: Option<String>,
}

/// Widely used extension properties.
#[derive(Debug, PartialEq, Eq)]
pub struct ActivityStreamExtItems {
    pub manually_approves_followers: Option<bool>,
    pub also_known_as: Vec<String>,
    pub moved_to: Option<String>,
    pub sensitive: Option<bool>,
}

/// Extension properties of the toot namespace.
#[derive(Debug, PartialEq, Eq)]
pub struct MastodonExtItems {
    pub featured: Option<String>,
    pub featured_tags: Option<String>,
    pub discoverable: Option<bool>,
    pub suspended: Option<bool>,
    pub devices: Option<String>,
}

/// Security vocabulary properties.
#[derive(Debug, PartialEq, Eq)]
pub struct SecurityItems {
    pub public_key: Option<Key>,
}

/// Property-value properties.
#[derive(Debug, PartialEq, Eq)]
pub struct PropertyItems {
    pub value: Option<String>,
}

impl Object {
    /// An object with no property set.
    pub fn empty() -> (r: Object)
        ensures
            r.schema_context is None,
            r.id is None,
            r.typ@.len() == 0,
            r.actor_items is None,
            r.object_items.attachment@.len() == 0,
            r.object_items.attributed_to@.len() == 0,
            r.object_items.audience@.len() == 0,
            r.object_items.bcc@.len() == 0,
            r.object_items.bto@.len() == 0,
            r.object_items.cc@.len() == 0,
            r.object_items.context@.len() == 0,
            r.object_items.generator@.len() == 0,
            r.object_items.icon@.len() == 0,
            r.object_items.image@.len() == 0,
            r.object_items.in_reply_to@.len() == 0,
            r.object_items.location@.len() == 0,
            r.object_items.preview@.len() == 0,
            r.object_items.replies is None,
            r.object_items.tag@.len() == 0,
            r.object_items.to@.len() == 0,
            r.object_items.url is None,
            r.object_items.content@.len() == 0,
            r.object_items.content_map@.len() == 0,
            r.object_items.name@.len() == 0,
            r.object_items.name_map@.len() == 0,
            r.object_items.duration is None,
            r.object_items.media_type@.len() == 0,
            r.object_items.end_time is None,
            r.object_items.published is None,
            r.object_items.summary@.len() == 0,
            r.object_items.summary_map@.len() == 0,
            r.object_items.updated is None,
            r.object_items.describes is None,
            r.activity_items.actor@.len() == 0,
            r.activity_items.instrument@.len() == 0,
            r.activity_items.origin@.len() == 0,
            r.activity_items.object@.len() == 0,
            r.activity_items.result@.len() == 0,
            r.activity_items.target@.len() == 0,
            r.collection_items.total_items is None,
            r.collection_items.current is None,
            r.collection_items.first is None,
            r.collection_items.last is None,
            r.collection_items.items@.len() == 0,
            r.ordered_collection_items.ordered_items@.len() == 0,
            r.collection_page_items.next is None,
            r.collection_page_items.prev is None,
            r.collection_page_items.part_of is None,
            r.ordered_collection_page_items.start_index is None,
            r.relationship_items.subject is None,
            r.relationship_items.relationship@.len() == 0,
            r.tombstone_items.former_type@.len() == 0,
            r.tombstone_items.deleted is None,
            r.question_items.one_of@.len() == 0,
            r.question_items.any_of@.len() == 0,
            r.question_items.closed is None,
            r.place_items.accuracy is None,
            r.place_items.altitude is None,
            r.place_items.latitute is None,
            r.place_items.longitute is None,
            r.place_items.radius is None,
            r.place_items.units is None,
            r.activity_streams_ext_items.manually_approves_followers is None,
            r.activity_streams_ext_items.also_known_as@.len() == 0,
            r.activity_streams_ext_items.moved_to is None,
            r.activity_streams_ext_items.sensitive is None,
            r.mastodon_ext_items.featured is None,
            r.mastodon_ext_items.featured_tags is None,
            r.mastodon_ext_items.discoverable is None,
            r.mastodon_ext_items.suspended is None,
            r.mastodon_ext_items.devices is None,
            r.security_items.public_key is None,
            r.property_items.value is None,
    {
        Object {
            schema_context: None,
            id: None,
            typ: Vec::new(),
            object_items: ObjectItems {
                attachment: Vec::new(),
                attributed_to: Vec::new(),
                audience: Vec::new(),
                bcc: Vec::new(),
                bto: Vec::new(),
                cc: Vec::new(),
                context: Vec::new(),
                generator: Vec::new(),
                icon: Vec::new(),
                image: Vec::new(),
                in_reply_to: Vec::new(),
                location: Vec::new(),
                preview: Vec::new(),
                replies: None,
                tag: Vec::new(),
                to: Vec::new(),
                url: None,
                content: Vec::new(),
                content_map: Vec::new(),
                name: Vec::new(),
                name_map: Vec::new(),
                duration: None,
                media_type: Vec::new(),
                end_time: None,
                published: None,
                summary: Vec::new(),
                summary_map: Vec::new(),
                updated: None,
                describes: None,
            },
            actor_items: None,
            activity_items: ActivityItems {
                actor: Vec::new(),
                instrument: Vec::new(),
                origin: Vec::new(),
                object: Vec::new(),
                result: Vec::new(),
                target: Vec::new(),
            },
            collection_items: CollectionItems {
                total_items: None,
                current: None,
                first: None,
                last: None,
                items: Vec::new(),
            },
            ordered_collection_items: OrderedCollectionItems {
                ordered_items: Vec::new(),
            },
            collection_page_items: CollectionPageItems {
                next: None,
                prev: None,
                part_of: None,
            },
            ordered_collection_page_items: OrderedCollectionPageItems {
                start_index: None,
            },
            relationship_items: RelationshipItems {
                subject: None,
                relationship: Vec::new(),
            },
            tombstone_items: TombstoneItems {
                former_type: Vec::new(),
                deleted: None,
            },
            question_items: QuestionItems {
                one_of: Vec::new(),
                any_of: Vec::new(),
                closed: None,
            },
            place_items: PlaceItems {
                accuracy: None,
                altitude: None,
                latitute: None,
                longitute: None,
                radius: None,
                units: None,
            },
            activity_streams_ext_items: ActivityStreamExtItems {
                manually_approves_followers: None,
                also_known_as: Vec::new(),
                moved_to: None,
                sensitive: None,
            },
            mastodon_ext_items: MastodonExtItems {
                featured: None,
                featured_tags: None,
                discoverable: None,
                suspended: None,
                devices: None,
            },
            security_items: SecurityItems {
                public_key: None,
            },
            property_items: PropertyItems {
                value: None,
            },
        }
    }
}

} // verus!
