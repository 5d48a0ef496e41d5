use activity_json::context::{context_to_domain, context_to_wire};
use activity_json::context_json::{context_from_json, context_to_json};
use activity_json::convert::{
    link_ref_to_domain, link_ref_to_wire, link_to_domain, link_to_wire, object_to_domain,
    object_to_wire, ool_to_domain, ool_to_wire, ools_to_domain, ools_to_wire,
};
use activity_json::date::{from_model_opt, to_model_opt, ConvError, DateTime};
use activity_json::json::{Json, Number};
use activity_json::lax::{from_lax_array, to_lax_array, Lax};
use activity_json::model;
use activity_json::value::SerdeJsonValue;
use activity_json::wire;

fn s(x: &str) -> String {
    x.to_string()
}

#[test]
fn lax_empty_is_absent() {
    assert_eq!(to_lax_array(Vec::<String>::new()), None);
    assert_eq!(from_lax_array::<String>(None), Vec::<String>::new());
}

#[test]
fn lax_single_is_bare() {
    assert_eq!(to_lax_array(vec![s("x")]), Some(Lax::One(s("x"))));
    assert_eq!(from_lax_array(Some(Lax::One(s("x")))), vec![s("x")]);
}

#[test]
fn lax_pair_is_array_in_order() {
    assert_eq!(to_lax_array(vec![s("x"), s("y")]), Some(Lax::Many(vec![s("x"), s("y")])));
    assert_eq!(from_lax_array(Some(Lax::Many(vec![s("x"), s("y")]))), vec![s("x"), s("y")]);
}

#[test]
fn lax_array_of_one_is_normalised() {
    let items = from_lax_array(Some(Lax::Many(vec![s("x")])));
    assert_eq!(items, vec![s("x")]);
    let again = to_lax_array(items);
    assert_eq!(again, Some(Lax::One(s("x"))));
    assert_eq!(from_lax_array(again), vec![s("x")]);
}

#[test]
fn bare_link_compacts_to_string() {
    let link = model::Link::from_href(s("https://example/1"));
    assert!(link.is_bare());
    let w = link_ref_to_wire(link);
    assert_eq!(w, wire::LinkOrUri::Uri(s("https://example/1")));
    let back = link_ref_to_domain(w);
    assert_eq!(back, model::Link::from_href(s("https://example/1")));
    let w = ool_to_wire(model::ObjectOrLink::Link(model::Link::from_href(s("https://example/1"))));
    assert_eq!(w, Ok(wire::ObjectOrLink::Uri(s("https://example/1"))));
    let back = ool_to_domain(wire::ObjectOrLink::Uri(s("https://example/1")));
    assert_eq!(back, Ok(model::ObjectOrLink::Link(model::Link::from_href(s("https://example/1")))));
}

fn self_link() -> model::Link {
    let mut link = model::Link::from_href(s("https://example/1"));
    link.rel = vec![s("self")];
    link
}

#[test]
fn link_with_rel_keeps_full_shape() {
    assert!(!self_link().is_bare());
    let w = ool_to_wire(model::ObjectOrLink::Link(self_link())).unwrap();
    match &w {
        wire::ObjectOrLink::Link(l) => {
            assert_eq!(l.href, s("https://example/1"));
            assert_eq!(l.rel, Some(Lax::One(s("self"))));
            assert_eq!(l.typ, None);
        }
        other => panic!("expected a full link, got {:?}", other),
    }
    assert_eq!(ool_to_domain(w), Ok(model::ObjectOrLink::Link(self_link())));
    let full = link_to_wire(self_link());
    assert_eq!(link_to_domain(full), self_link());
}

#[test]
fn actor_group_read_when_all_present() {
    let mut w = wire::Object::empty();
    w.inbox = Some(s("https://example/inbox"));
    w.outbox = Some(s("https://example/outbox"));
    w.followers = Some(s("https://example/followers"));
    w.following = Some(s("https://example/following"));
    w.preferred_username = Some(s("alice"));
    let o = object_to_domain(w).unwrap();
    let a = o.actor_items.expect("actor group");
    assert_eq!(a.inbox, s("https://example/inbox"));
    assert_eq!(a.outbox, s("https://example/outbox"));
    assert_eq!(a.followers, s("https://example/followers"));
    assert_eq!(a.following, s("https://example/following"));
    assert_eq!(a.preferred_username, Some(s("alice")));
    assert!(a.endpoints.is_empty());
}

#[test]
fn partial_actor_group_is_dropped() {
    let mut w = wire::Object::empty();
    w.inbox = Some(s("https://example/inbox"));
    let o = object_to_domain(w).unwrap();
    assert!(o.actor_items.is_none());
}

#[test]
fn actor_group_written_together() {
    let mut o = model::Object::empty();
    o.actor_items = Some(model::ActorItems {
        inbox: s("i"),
        outbox: s("o"),
        following: s("g"),
        followers: s("f"),
        preferred_username: None,
        endpoints: vec![(s("sharedInbox"), s("https://example/shared"))],
    });
    let w = object_to_wire(o).unwrap();
    assert_eq!(w.inbox, Some(s("i")));
    assert_eq!(w.outbox, Some(s("o")));
    assert_eq!(w.following, Some(s("g")));
    assert_eq!(w.followers, Some(s("f")));
    assert_eq!(w.endpoints, Some(vec![(s("sharedInbox"), s("https://example/shared"))]));
}

#[test]
fn date_text_round_trips() {
    let d = to_model_opt(Some(s("2024-01-02T03:04:05Z"))).unwrap();
    assert_eq!(d, Some(DateTime { secs: 1704164645, nanos: 0 }));
    assert_eq!(from_model_opt(d), Ok(Some(s("2024-01-02T03:04:05Z"))));
}

#[test]
fn date_with_offset_is_written_in_utc() {
    let d = to_model_opt(Some(s("2024-01-02T05:04:05+02:00"))).unwrap();
    assert_eq!(d, Some(DateTime { secs: 1704164645, nanos: 0 }));
    assert_eq!(from_model_opt(d), Ok(Some(s("2024-01-02T03:04:05Z"))));
}

#[test]
fn date_out_of_range_fails() {
    let d = Some(DateTime { secs: i64::MAX, nanos: 0 });
    assert_eq!(from_model_opt(d), Err(ConvError::DateOutOfRange));
    assert_eq!(from_model_opt(None), Ok(None));
}

#[test]
fn malformed_published_fails() {
    let mut w = wire::Object::empty();
    w.published = Some(s("not-a-date"));
    assert_eq!(object_to_domain(w), Err(ConvError::InvalidDate));
}

#[test]
fn malformed_date_in_nested_object_fails() {
    let mut inner = wire::Object::empty();
    inner.updated = Some(s("yesterday"));
    let mut w = wire::Object::empty();
    w.attachment = Some(Lax::Many(vec![
        wire::ObjectOrLink::Uri(s("https://example/a")),
        wire::ObjectOrLink::Object(Box::new(inner)),
    ]));
    assert_eq!(object_to_domain(w), Err(ConvError::InvalidDate));
}

#[test]
fn context_string_is_single_direct() {
    let c = context_from_json(&Json::String(s("https://www.w3.org/ns/activitystreams")));
    assert_eq!(
        c,
        Some(wire::Context::Single(wire::Iri::Direct(s("https://www.w3.org/ns/activitystreams"))))
    );
}

#[test]
fn context_list_is_mix() {
    let j = Json::Array(vec![
        Json::String(s("https://www.w3.org/ns/activitystreams")),
        Json::Object(vec![(s("toot"), Json::String(s("http://joinmastodon.org/ns#")))]),
    ]);
    let c = context_from_json(&j).unwrap();
    assert_eq!(
        c,
        wire::Context::Mix(vec![
            wire::Context::Single(wire::Iri::Direct(s("https://www.w3.org/ns/activitystreams"))),
            wire::Context::TermDefs(vec![(
                s("toot"),
                wire::Iri::Direct(s("http://joinmastodon.org/ns#"))
            )]),
        ])
    );
}

#[test]
fn context_object_is_term_defs() {
    let j = Json::Object(vec![
        (s("as"), Json::String(s("https://www.w3.org/ns/activitystreams#"))),
        (
            s("featured"),
            Json::Object(vec![
                (s("@id"), Json::String(s("toot:featured"))),
                (s("@type"), Json::String(s("@id"))),
            ]),
        ),
    ]);
    let c = context_from_json(&j).unwrap();
    assert_eq!(
        c,
        wire::Context::TermDefs(vec![
            (s("as"), wire::Iri::Direct(s("https://www.w3.org/ns/activitystreams#"))),
            (
                s("featured"),
                wire::Iri::TypeCoercion(wire::TypeCoercion {
                    id: s("toot:featured"),
                    typ: Some(s("@id")),
                })
            ),
        ])
    );
}

#[test]
fn context_object_with_id_is_type_coercion() {
    let j = Json::Object(vec![(s("@id"), Json::String(s("x:y"))), (s("@type"), Json::Null)]);
    assert_eq!(
        context_from_json(&j),
        Some(wire::Context::Single(wire::Iri::TypeCoercion(wire::TypeCoercion {
            id: s("x:y"),
            typ: None,
        })))
    );
}

#[test]
fn context_of_other_shape_is_rejected() {
    assert_eq!(context_from_json(&Json::Number(Number::PosInt(3))), None);
    assert_eq!(context_from_json(&Json::Array(vec![Json::Bool(true)])), None);
    assert_eq!(
        context_from_json(&Json::Object(vec![(s("a"), Json::Number(Number::PosInt(1)))])),
        None
    );
}

#[test]
fn context_domain_round_trip() {
    let c = model::Context::Mix(vec![
        model::Context::Single(model::Iri::Direct(s("https://www.w3.org/ns/activitystreams"))),
        model::Context::TermDefs(vec![(
            s("sensitive"),
            model::Iri::TypeCoercion { id: s("as:sensitive"), typ: None },
        )]),
    ]);
    let w = context_to_wire(c);
    let back = context_to_domain(w);
    assert_eq!(
        back,
        model::Context::Mix(vec![
            model::Context::Single(model::Iri::Direct(s("https://www.w3.org/ns/activitystreams"))),
            model::Context::TermDefs(vec![(
                s("sensitive"),
                model::Iri::TypeCoercion { id: s("as:sensitive"), typ: None },
            )]),
        ])
    );
}

fn sample_note() -> model::Object {
    let mut o = model::Object::empty();
    o.id = Some(s("https://example/notes/1"));
    o.typ = vec![s("Note")];
    o.schema_context = Some(model::Context::Single(model::Iri::Direct(s(
        "https://www.w3.org/ns/activitystreams",
    ))));
    o.object_items.to = vec![
        model::ObjectOrLink::Link(model::Link::from_href(s("https://example/a"))),
        model::ObjectOrLink::Link(model::Link::from_href(s("https://example/b"))),
    ];
    o.object_items.cc = vec![model::ObjectOrLink::Link(self_link())];
    o.object_items.content = vec![s("hello")];
    o.object_items.content_map = vec![(s("en"), s("hello"))];
    o.object_items.published = Some(DateTime { secs: 1704164645, nanos: 0 });
    o.object_items.url = Some(model::Link::from_href(s("https://example/n/1")));
    let mut replies = model::Object::empty();
    replies.typ = vec![s("Collection")];
    replies.collection_items.total_items = Some(0);
    o.object_items.replies = Some(Box::new(replies));
    o.collection_items.first = Some(Box::new(model::ObjectOrLink::Link(model::Link::from_href(
        s("https://example/page/1"),
    ))));
    o.place_items.latitute = Some(1.5f64.to_bits());
    o.question_items.closed = Some(Json::Bool(true));
    o.security_items.public_key = Some(model::Key {
        id: s("https://example/key"),
        owner: s("https://example/actor"),
        public_key_pem: Some(s("PEM")),
    });
    o
}

#[test]
fn object_round_trip() {
    let w = object_to_wire(sample_note()).unwrap();
    assert_eq!(w.typ, Some(Lax::One(s("Note"))));
    assert_eq!(
        w.to,
        Some(Lax::Many(vec![
            wire::ObjectOrLink::Uri(s("https://example/a")),
            wire::ObjectOrLink::Uri(s("https://example/b")),
        ]))
    );
    assert_eq!(w.url, Some(wire::LinkOrUri::Uri(s("https://example/n/1"))));
    assert_eq!(w.published, Some(s("2024-01-02T03:04:05Z")));
    assert_eq!(w.content_map, Some(vec![(s("en"), s("hello"))]));
    assert_eq!(w.name_map, None);
    assert_eq!(w.attachment, None);
    let back = object_to_domain(w).unwrap();
    assert_eq!(back, sample_note());
}

#[test]
fn object_list_round_trip() {
    let v = vec![
        model::ObjectOrLink::Object(sample_note()),
        model::ObjectOrLink::Link(self_link()),
    ];
    let w = ools_to_wire(v).unwrap();
    let back = ools_to_domain(w).unwrap();
    assert_eq!(back, vec![model::ObjectOrLink::Object(sample_note()), model::ObjectOrLink::Link(self_link())]);
}

#[test]
fn nested_date_out_of_range_fails_to_write() {
    let mut inner = model::Object::empty();
    inner.tombstone_items.deleted = Some(DateTime { secs: i64::MIN, nanos: 0 });
    let mut o = model::Object::empty();
    o.object_items.describes = Some(Box::new(inner));
    assert_eq!(object_to_wire(o), Err(ConvError::DateOutOfRange));
}

#[test]
fn serde_json_value_holds_its_value() {
    let v = SerdeJsonValue::new(7u32);
    assert_eq!(v.value, 7);
}

fn sample_wire_context() -> wire::Context {
    wire::Context::Mix(vec![
        wire::Context::Single(wire::Iri::Direct(s("https://www.w3.org/ns/activitystreams"))),
        wire::Context::TermDefs(vec![
            (s("toot"), wire::Iri::Direct(s("http://joinmastodon.org/ns#"))),
            (
                s("featured"),
                wire::Iri::TypeCoercion(wire::TypeCoercion { id: s("toot:featured"), typ: None }),
            ),
        ]),
    ])
}

#[test]
fn context_written_and_read_back() {
    let j = context_to_json(sample_wire_context());
    assert_eq!(
        j,
        Json::Array(vec![
            Json::String(s("https://www.w3.org/ns/activitystreams")),
            Json::Object(vec![
                (s("toot"), Json::String(s("http://joinmastodon.org/ns#"))),
                (s("featured"), Json::Object(vec![(s("@id"), Json::String(s("toot:featured")))])),
            ]),
        ])
    );
    assert_eq!(context_from_json(&j), Some(sample_wire_context()));
}
