use smacktivity::ActivityStreamsContext;
use smacktivity::ActivityStreamsType;
use smacktivity::ClosedProperty;
use smacktivity::EndpointsProperty;
use smacktivity::Error;
use smacktivity::Json;
use smacktivity::LinkObject;
use smacktivity::LinkRelation;
use smacktivity::NonFunctional;
use smacktivity::Number;
use smacktivity::Object;
use smacktivity::Property;
use smacktivity::Units;
use smacktivity::Url;
use smacktivity::ACTIVITYSTREAMS_CONTEXT;

fn text(value: &str) -> Json {
    Json::String(value.to_string())
}

fn document(entries: Vec<(&str, Json)>) -> Json {
    Json::Object(entries.into_iter().map(|(key, value)| (key.to_string(), value)).collect())
}

fn url(value: &str) -> Url {
    Url::parse(value).unwrap()
}

fn keys(json: &Json) -> Vec<String> {
    match json {
        Json::Object(entries) => entries.iter().map(|(key, _)| key.clone()).collect(),
        _ => panic!("an object was expected"),
    }
}

#[test]
fn default_object_has_the_activitystreams_context() {
    let object = Object::default();
    assert_eq!(object.schema_context, ActivityStreamsContext::Url(url(ACTIVITYSTREAMS_CONTEXT)));
    assert_eq!(object.type_, ActivityStreamsType::Object);
    assert_eq!(object.id, None);
    assert!(object.actor.is_none());
    assert!(object.rest.is_empty());
    assert_eq!(ACTIVITYSTREAMS_CONTEXT, "https://www.w3.org/ns/activitystreams");
}

#[test]
fn actor_document_is_read_with_defaults() {
    let input = document(vec![("type", text("Actor")), ("id", text("https://example/outbox"))]);
    let object = Object::from_json(&input).unwrap();
    assert_eq!(
        object.schema_context,
        ActivityStreamsContext::Url(url("https://www.w3.org/ns/activitystreams"))
    );
    assert_eq!(object.type_, ActivityStreamsType::Actor);
    assert_eq!(object.id, Some(url("https://example/outbox")));
    let expected = Object {
        type_: ActivityStreamsType::Actor,
        id: Some(url("https://example/outbox")),
        ..Object::default()
    };
    assert_eq!(object, expected);
}

#[test]
fn actor_document_is_written_with_its_context() {
    let input = document(vec![("type", text("Actor")), ("id", text("https://example/outbox"))]);
    let object = Object::from_json(&input).unwrap();
    let expected = document(vec![
        ("@context", text("https://www.w3.org/ns/activitystreams")),
        ("type", text("Actor")),
        ("id", text("https://example/outbox")),
    ]);
    assert_eq!(object.to_json(), expected);
}

#[test]
fn unknown_properties_survive() {
    let input = document(vec![
        ("@context", text("https://www.w3.org/ns/activitystreams")),
        ("type", text("Note")),
        ("foo", text("bar")),
        ("content", text("hello")),
        ("sensitive", Json::Bool(false)),
        ("nothing", Json::Null),
    ]);
    let object = Object::from_json(&input).unwrap();
    assert_eq!(
        object.rest,
        vec![
            ("foo".to_string(), text("bar")),
            ("sensitive".to_string(), Json::Bool(false)),
            ("nothing".to_string(), Json::Null),
        ]
    );
    let expected = document(vec![
        ("@context", text("https://www.w3.org/ns/activitystreams")),
        ("type", text("Note")),
        ("content", text("hello")),
        ("foo", text("bar")),
        ("sensitive", Json::Bool(false)),
        ("nothing", Json::Null),
    ]);
    let written = object.to_json();
    assert_eq!(written, expected);
    assert_eq!(Object::from_json(&written), Ok(object));
}

#[test]
fn properties_are_written_in_their_order() {
    let object = Object {
        preferred_username: Some("smack".to_string()),
        name: NonFunctional::One("Smack".to_string()),
        actor: NonFunctional::One(LinkObject::Url(url("https://example.org/actor"))),
        total_items: Some(3),
        ..Object::default()
    };
    assert_eq!(
        keys(&object.to_json()),
        vec!["@context", "type", "actor", "name", "totalItems", "preferredUsername"]
    );
}

#[test]
fn absent_properties_are_left_out() {
    let object = Object {
        name: NonFunctional::Many(Vec::new()),
        attachment: NonFunctional::Many(Vec::new()),
        rel: NonFunctional::Many(Vec::new()),
        ..Object::default()
    };
    let written = object.to_json();
    assert_eq!(keys(&written), vec!["@context", "type"]);
    assert_eq!(written, Object::default().to_json());
    match written {
        Json::Object(entries) => {
            for (_, value) in entries {
                assert_ne!(value, Json::Null);
            }
        },
        _ => panic!("an object was expected"),
    }
}

#[test]
fn null_and_empty_list_are_read_as_nothing() {
    let input = document(vec![
        ("actor", Json::Null),
        ("attachment", Json::Array(Vec::new())),
        ("name", Json::Array(Vec::new())),
        ("rel", Json::Array(Vec::new())),
        ("id", Json::Null),
        ("current", Json::Null),
        ("endpoints", Json::Null),
        ("describes", Json::Null),
        ("units", Json::Null),
        ("closed", Json::Null),
        ("width", Json::Null),
        ("latitude", Json::Null),
        ("summary", Json::Null),
        ("deleted", Json::Null),
    ]);
    assert_eq!(Object::from_json(&input), Ok(Object::default()));
}

#[test]
fn link_from_text_is_a_url() {
    let link = LinkObject::from_json(&text("https://example.org/a")).unwrap();
    assert_eq!(link, LinkObject::Url(url("https://example.org/a")));
    assert_eq!(link.to_json(), text("https://example.org/a"));
}

#[test]
fn link_from_object_is_an_object() {
    let input = document(vec![("type", text("Person")), ("name", text("Ann"))]);
    let link = LinkObject::from_json(&input).unwrap();
    let person = Object {
        type_: ActivityStreamsType::Person,
        name: NonFunctional::One("Ann".to_string()),
        ..Object::default()
    };
    assert_eq!(link, LinkObject::Object(Box::new(person)));
    match link.to_json() {
        Json::Object(_) => {},
        _ => panic!("an object was expected"),
    }
}

#[test]
fn link_of_another_shape_is_refused() {
    assert_eq!(LinkObject::from_json(&Json::Null), None);
    assert_eq!(LinkObject::from_json(&Json::Bool(true)), None);
    assert_eq!(LinkObject::from_json(&Json::Number(Number::Unsigned(1))), None);
    assert_eq!(LinkObject::from_json(&Json::Array(Vec::new())), None);
    assert_eq!(LinkObject::from_json(&text("no url")), None);
    assert_eq!(LinkObject::from_json(&document(vec![("type", text("Banana"))])), None);
}

#[test]
fn one_link_or_many_are_both_read() {
    let one = document(vec![("actor", text("https://example.org/a"))]);
    let object = Object::from_json(&one).unwrap();
    assert_eq!(object.actor, NonFunctional::One(LinkObject::Url(url("https://example.org/a"))));

    let many = document(vec![(
        "actor",
        Json::Array(vec![text("https://example.org/a"), document(vec![("type", text("Person"))])]),
    )]);
    let object = Object::from_json(&many).unwrap();
    let person = Object { type_: ActivityStreamsType::Person, ..Object::default() };
    assert_eq!(
        object.actor,
        NonFunctional::Many(vec![
            LinkObject::Url(url("https://example.org/a")),
            LinkObject::Object(Box::new(person)),
        ])
    );

    let single = document(vec![("actor", Json::Array(vec![text("https://example.org/a")]))]);
    let object = Object::from_json(&single).unwrap();
    assert_eq!(
        object.actor,
        NonFunctional::Many(vec![LinkObject::Url(url("https://example.org/a"))])
    );
    assert_eq!(Object::from_json(&object.to_json()), Ok(object));
}

fn rich_object() -> Object {
    let inner = Object {
        type_: ActivityStreamsType::Image,
        url: NonFunctional::One(LinkObject::Url(url("https://example.org/i.png"))),
        width: Some(640),
        height: Some(480),
        media_type: Some("image/png".to_string()),
        rest: vec![("blurhash".to_string(), text("abc"))],
        ..Object::default()
    };
    Object {
        schema_context: ActivityStreamsContext::List(vec![
            ActivityStreamsContext::Url(url("https://www.w3.org/ns/activitystreams")),
            ActivityStreamsContext::Terms(vec![
                ("toot".to_string(), ActivityStreamsContext::Url(url("http://joinmastodon.org/ns#"))),
                ("sensitive".to_string(), ActivityStreamsContext::String("sensitive".to_string())),
            ]),
            ActivityStreamsContext::String("plain".to_string()),
        ]),
        type_: ActivityStreamsType::Note,
        id: Some(url("https://example.org/notes/1")),
        attributed_to: NonFunctional::One(LinkObject::Url(url("https://example.org/users/ann"))),
        attachment: NonFunctional::Many(vec![
            LinkObject::Object(Box::new(inner)),
            LinkObject::Url(url("https://example.org/files/2")),
        ]),
        first: Some(LinkObject::Url(url("https://example.org/notes/1/replies?page=1"))),
        closed: Some(ClosedProperty::Bool(true)),
        content: NonFunctional::Many(vec!["hello".to_string(), "hallo".to_string()]),
        name: NonFunctional::One("greeting".to_string()),
        published: Some("2023-01-01T00:00:00Z".to_string()),
        latitude: Some(Number::Real(0x4049_0000_0000_0000)),
        longitude: Some(Number::Signed(-3)),
        altitude: Some(Number::Unsigned(12)),
        rel: NonFunctional::Many(vec![LinkRelation::Alternate, LinkRelation::DnsPrefetch]),
        start_index: Some(0),
        total_items: Some(4294967295),
        units: Some(Units::Km),
        describes: Some(Box::new(Object { type_: ActivityStreamsType::Person, ..Object::default() })),
        endpoints: Some(EndpointsProperty {
            proxy_url: None,
            oauth_authorization_endpoint: Some(url("https://example.org/oauth")),
            oauth_token_endpoint: None,
            provide_client_key: None,
            sign_client_key: None,
            shared_inbox: Some(url("https://example.org/inbox")),
        }),
        preferred_username: Some("ann".to_string()),
        rest: vec![
            ("foo".to_string(), text("bar")),
            ("numbers".to_string(), Json::Array(vec![Json::Number(Number::Unsigned(1)), Json::Null])),
        ],
        ..Object::default()
    }
}

#[test]
fn reading_what_was_written_gives_the_object_back() {
    let object = rich_object();
    let written = object.to_json();
    assert_eq!(Object::from_json(&written), Ok(object));
    let again = Object::from_json(&written).unwrap().to_json();
    assert_eq!(again, written);
}

#[test]
fn rich_object_is_written_as_expected() {
    let written = rich_object().to_json();
    assert_eq!(
        keys(&written),
        vec![
            "@context",
            "type",
            "id",
            "attachment",
            "attributedTo",
            "first",
            "closed",
            "altitude",
            "content",
            "name",
            "latitude",
            "longitude",
            "published",
            "rel",
            "startIndex",
            "totalItems",
            "units",
            "describes",
            "endpoints",
            "preferredUsername",
            "foo",
            "numbers",
        ]
    );
    let entries = match written {
        Json::Object(entries) => entries,
        _ => panic!("an object was expected"),
    };
    assert_eq!(
        entries[0].1,
        Json::Array(vec![
            text("https://www.w3.org/ns/activitystreams"),
            document(vec![("toot", text("http://joinmastodon.org/ns#")), ("sensitive", text("sensitive"))]),
            text("plain"),
        ])
    );
    assert_eq!(entries[6].1, Json::Bool(true));
    assert_eq!(entries[7].1, Json::Number(Number::Unsigned(12)));
    assert_eq!(entries[8].1, Json::Array(vec![text("hello"), text("hallo")]));
    assert_eq!(entries[9].1, text("greeting"));
    assert_eq!(entries[13].1, Json::Array(vec![text("alternate"), text("dns-prefetch")]));
    assert_eq!(entries[15].1, Json::Number(Number::Unsigned(4294967295)));
    assert_eq!(entries[16].1, text("km"));
    assert_eq!(
        entries[18].1,
        document(vec![
            ("oauthAuthorizationEndpoint", text("https://example.org/oauth")),
            ("sharedInbox", text("https://example.org/inbox")),
        ])
    );
}

#[test]
fn context_shapes_are_told_apart() {
    let read = |json: Json| ActivityStreamsContext::from_json(&json);
    assert_eq!(
        read(text("https://www.w3.org/ns/activitystreams")),
        Some(ActivityStreamsContext::Url(url("https://www.w3.org/ns/activitystreams")))
    );
    assert_eq!(read(text("as")), Some(ActivityStreamsContext::String("as".to_string())));
    assert_eq!(
        read(document(vec![("a", text("b"))])),
        Some(ActivityStreamsContext::Terms(vec![(
            "a".to_string(),
            ActivityStreamsContext::String("b".to_string())
        )]))
    );
    assert_eq!(read(Json::Array(Vec::new())), Some(ActivityStreamsContext::List(Vec::new())));
    assert_eq!(read(Json::Null), None);
    assert_eq!(read(Json::Bool(true)), None);
    assert_eq!(read(Json::Array(vec![Json::Number(Number::Unsigned(1))])), None);
    assert_eq!(read(document(vec![("a", Json::Null)])), None);
}

#[test]
fn a_text_that_is_a_url_is_read_as_a_url() {
    let object = Object {
        schema_context: ActivityStreamsContext::String("as:sensitive".to_string()),
        ..Object::default()
    };
    let read = Object::from_json(&object.to_json()).unwrap();
    assert_eq!(read.schema_context, ActivityStreamsContext::Url(url("as:sensitive")));
    assert_eq!(read.to_json(), object.to_json());
}

#[test]
fn closed_takes_text_truth_or_object() {
    let read = |json: Json| Object::from_json(&document(vec![("closed", json)])).map(|object| object.closed);
    assert_eq!(read(text("2023-01-01")), Ok(Some(ClosedProperty::String("2023-01-01".to_string()))));
    assert_eq!(
        read(text("https://example.org/a")),
        Ok(Some(ClosedProperty::String("https://example.org/a".to_string())))
    );
    assert_eq!(read(Json::Bool(false)), Ok(Some(ClosedProperty::Bool(false))));
    assert_eq!(
        read(document(vec![])),
        Ok(Some(ClosedProperty::Object(LinkObject::Object(Box::new(Object::default())))))
    );
    assert_eq!(read(Json::Number(Number::Unsigned(1))), Err(Error::InvalidProperty(Property::Closed)));
}

#[test]
fn counts_are_whole_numbers_of_32_bits() {
    let read = |json: Json| Object::from_json(&document(vec![("width", json)])).map(|object| object.width);
    assert_eq!(read(Json::Number(Number::Unsigned(0))), Ok(Some(0)));
    assert_eq!(read(Json::Number(Number::Unsigned(4294967295))), Ok(Some(4294967295)));
    assert_eq!(
        read(Json::Number(Number::Unsigned(4294967296))),
        Err(Error::InvalidProperty(Property::Width))
    );
    assert_eq!(read(Json::Number(Number::Signed(-1))), Err(Error::InvalidProperty(Property::Width)));
    assert_eq!(
        read(Json::Number(Number::Real(0x3ff0_0000_0000_0000))),
        Err(Error::InvalidProperty(Property::Width))
    );
    assert_eq!(read(text("1")), Err(Error::InvalidProperty(Property::Width)));
}

#[test]
fn measures_take_any_number() {
    let read =
        |json: Json| Object::from_json(&document(vec![("radius", json)])).map(|object| object.radius);
    assert_eq!(read(Json::Number(Number::Unsigned(5))), Ok(Some(Number::Unsigned(5))));
    assert_eq!(read(Json::Number(Number::Signed(-5))), Ok(Some(Number::Signed(-5))));
    assert_eq!(
        read(Json::Number(Number::Real(0x4014_0000_0000_0000))),
        Ok(Some(Number::Real(0x4014_0000_0000_0000)))
    );
    assert_eq!(read(text("5")), Err(Error::InvalidProperty(Property::Radius)));
}

#[test]
fn a_document_that_is_no_object_is_refused() {
    assert_eq!(Object::from_json(&Json::Null), Err(Error::NotAnObject));
    assert_eq!(Object::from_json(&text("Note")), Err(Error::NotAnObject));
    assert_eq!(Object::from_json(&Json::Array(vec![document(vec![])])), Err(Error::NotAnObject));
    assert_eq!(Object::from_json(&Json::Bool(true)), Err(Error::NotAnObject));
    assert_eq!(Object::from_json(&Json::Number(Number::Unsigned(0))), Err(Error::NotAnObject));
}

#[test]
fn an_unknown_type_is_refused() {
    assert_eq!(Object::from_json(&document(vec![("type", text("Banana"))])), Err(Error::UnknownType));
    assert_eq!(Object::from_json(&document(vec![("type", text("note"))])), Err(Error::UnknownType));
    assert_eq!(Object::from_json(&document(vec![("type", Json::Null)])), Err(Error::UnknownType));
    assert_eq!(
        Object::from_json(&document(vec![("type", Json::Array(vec![text("Note")]))])),
        Err(Error::UnknownType)
    );
}

#[test]
fn an_invalid_context_is_refused() {
    assert_eq!(
        Object::from_json(&document(vec![("@context", Json::Number(Number::Unsigned(1)))])),
        Err(Error::InvalidContext)
    );
    assert_eq!(Object::from_json(&document(vec![("@context", Json::Null)])), Err(Error::InvalidContext));
}

#[test]
fn a_value_of_the_wrong_shape_is_refused() {
    let read = |key: &str, json: Json| Object::from_json(&document(vec![(key, json)]));
    assert_eq!(read("actor", Json::Number(Number::Unsigned(5))), Err(Error::InvalidProperty(Property::Actor)));
    assert_eq!(read("actor", text("no url")), Err(Error::InvalidProperty(Property::Actor)));
    assert_eq!(
        read("actor", Json::Array(vec![text("https://example.org/a"), Json::Null])),
        Err(Error::InvalidProperty(Property::Actor))
    );
    assert_eq!(read("id", text("no url")), Err(Error::InvalidProperty(Property::Id)));
    assert_eq!(read("name", Json::Bool(true)), Err(Error::InvalidProperty(Property::Name)));
    assert_eq!(
        read("name", Json::Array(vec![text("a"), Json::Bool(true)])),
        Err(Error::InvalidProperty(Property::Name))
    );
    assert_eq!(read("rel", text("banana")), Err(Error::InvalidProperty(Property::Rel)));
    assert_eq!(read("units", text("furlong")), Err(Error::InvalidProperty(Property::Units)));
    assert_eq!(read("describes", text("x")), Err(Error::InvalidProperty(Property::Describes)));
    assert_eq!(
        read("endpoints", document(vec![("sharedInbox", text("no url"))])),
        Err(Error::InvalidProperty(Property::Endpoints))
    );
    assert_eq!(read("published", Json::Bool(true)), Err(Error::InvalidProperty(Property::Published)));
    assert_eq!(read("current", Json::Array(Vec::new())), Err(Error::InvalidProperty(Property::Current)));
}

#[test]
fn the_first_invalid_property_in_order_is_reported() {
    let input = document(vec![
        ("width", text("wide")),
        ("actor", Json::Bool(true)),
        ("type", text("Banana")),
    ]);
    assert_eq!(Object::from_json(&input), Err(Error::UnknownType));
    let input = document(vec![("width", text("wide")), ("actor", Json::Bool(true))]);
    assert_eq!(Object::from_json(&input), Err(Error::InvalidProperty(Property::Actor)));
}

#[test]
fn the_first_of_two_entries_under_a_key_counts() {
    let input = document(vec![("name", text("first")), ("name", text("second"))]);
    let object = Object::from_json(&input).unwrap();
    assert_eq!(object.name, NonFunctional::One("first".to_string()));
}

#[test]
fn unknown_endpoints_are_ignored() {
    let input = document(vec![(
        "endpoints",
        document(vec![("sharedInbox", text("https://example.org/inbox")), ("other", text("x"))]),
    )]);
    let object = Object::from_json(&input).unwrap();
    let endpoints = object.endpoints.unwrap();
    assert_eq!(endpoints.shared_inbox, Some(url("https://example.org/inbox")));
    assert_eq!(endpoints.proxy_url, None);
    assert_eq!(
        endpoints.to_json(),
        document(vec![("sharedInbox", text("https://example.org/inbox"))])
    );
}

#[test]
fn json_trees_are_copied_whole() {
    let tree = document(vec![
        ("a", Json::Array(vec![Json::Null, Json::Bool(true), text("x")])),
        ("b", document(vec![("c", Json::Number(Number::Signed(-1)))])),
    ]);
    assert_eq!(tree.clone(), tree);
}

#[test]
fn default_endpoints_know_no_url() {
    let endpoints = EndpointsProperty::default();
    assert_eq!(endpoints.proxy_url, None);
    assert_eq!(endpoints.shared_inbox, None);
    assert_eq!(endpoints.to_json(), document(vec![]));
}

#[test]
fn of_two_unknown_entries_under_a_key_the_first_is_kept() {
    let input = document(vec![
        ("foo", text("first")),
        ("bar", Json::Bool(true)),
        ("foo", text("second")),
    ]);
    let object = Object::from_json(&input).unwrap();
    assert_eq!(
        object.rest,
        vec![("foo".to_string(), text("first")), ("bar".to_string(), Json::Bool(true))]
    );
}

#[test]
fn of_two_terms_under_a_name_the_first_is_kept() {
    let input = document(vec![("a", text("first")), ("b", text("other")), ("a", text("second"))]);
    assert_eq!(
        ActivityStreamsContext::from_json(&input),
        Some(ActivityStreamsContext::Terms(vec![
            ("a".to_string(), ActivityStreamsContext::String("first".to_string())),
            ("b".to_string(), ActivityStreamsContext::String("other".to_string())),
        ]))
    );
    let invalid = document(vec![("a", text("first")), ("a", Json::Null)]);
    assert_eq!(ActivityStreamsContext::from_json(&invalid), None);
}

#[test]
fn what_is_read_from_common_documents_is_canonical() {
    assert!(Object::default().is_canonical());
    assert!(rich_object().is_canonical());
    let input = document(vec![("type", text("Actor")), ("id", text("https://example/outbox"))]);
    assert!(Object::from_json(&input).unwrap().is_canonical());
}

#[test]
fn objects_that_do_not_read_back_are_not_canonical() {
    let empty_list = Object { name: NonFunctional::Many(Vec::new()), ..Object::default() };
    assert!(!empty_list.is_canonical());
    let no_links = Object { tag: NonFunctional::Many(Vec::new()), ..Object::default() };
    assert!(!no_links.is_canonical());
    let url_as_text = Object {
        schema_context: ActivityStreamsContext::String("as:sensitive".to_string()),
        ..Object::default()
    };
    assert!(!url_as_text.is_canonical());
    let bare_url = Object {
        closed: Some(ClosedProperty::Object(LinkObject::Url(url("https://example.org/a")))),
        ..Object::default()
    };
    assert!(!bare_url.is_canonical());
    let known_key = Object { rest: vec![("name".to_string(), text("x"))], ..Object::default() };
    assert!(!known_key.is_canonical());
    let twice = Object {
        rest: vec![("foo".to_string(), text("x")), ("foo".to_string(), text("y"))],
        ..Object::default()
    };
    assert!(!twice.is_canonical());
    let same_term = Object {
        schema_context: ActivityStreamsContext::Terms(vec![
            ("a".to_string(), ActivityStreamsContext::String("x".to_string())),
            ("a".to_string(), ActivityStreamsContext::String("y".to_string())),
        ]),
        ..Object::default()
    };
    assert!(!same_term.is_canonical());
    let nested = Object {
        actor: NonFunctional::One(LinkObject::Object(Box::new(Object {
            name: NonFunctional::Many(Vec::new()),
            ..Object::default()
        }))),
        ..Object::default()
    };
    assert!(!nested.is_canonical());
    let odd = Object { id: Some(url("file://host//C:/x")), ..Object::default() };
    assert_eq!(odd.is_canonical(), url("file://host//C:/x").is_canonical());
    assert_eq!(Object::from_json(&odd.to_json()) == Ok(odd), url("file://host//C:/x").is_canonical());
}

#[test]
fn an_answer_comes_to_an_object_or_a_failure() {
    let body = document(vec![("type", text("Person")), ("name", text("Ann"))]);
    let person = Object {
        type_: ActivityStreamsType::Person,
        name: NonFunctional::One("Ann".to_string()),
        ..Object::default()
    };
    assert_eq!(smacktivity::outcome_of(200, Some(&body)), Ok(person));
    assert!(smacktivity::outcome_of(299, Some(&body)).is_ok());
    assert_eq!(smacktivity::outcome_of(199, Some(&body)), Err(smacktivity::FetchError::Status(199)));
    assert_eq!(smacktivity::outcome_of(300, Some(&body)), Err(smacktivity::FetchError::Status(300)));
    assert_eq!(smacktivity::outcome_of(404, None), Err(smacktivity::FetchError::Status(404)));
    assert_eq!(smacktivity::outcome_of(200, None), Err(smacktivity::FetchError::Malformed));
    assert_eq!(smacktivity::outcome_of(200, Some(&text("x"))), Err(smacktivity::FetchError::Malformed));
    let unknown = document(vec![("type", text("Banana"))]);
    assert_eq!(smacktivity::outcome_of(200, Some(&unknown)), Err(smacktivity::FetchError::Malformed));
}

#[test]
fn errors_have_their_words() {
    assert_eq!(Error::InvalidContext.message(), "InvalidContext");
    assert_eq!(Error::NotAnObject.message(), "the document is not an object");
    assert_eq!(Error::UnknownType.message(), "the type is not in the vocabulary");
    assert_eq!(
        Error::InvalidProperty(Property::InReplyTo).message(),
        "the value of this property cannot be read: inReplyTo"
    );
    assert_eq!(Error::NonResolvableProperty.message(), "non resolvable property");
    assert_eq!(Error::NotResolved.message(), "called resolve but wasn't resolved");
    assert_eq!(
        Error::Fetch(smacktivity::FetchError::Transport).message(),
        "could not resolve a reference: the request did not complete"
    );
    assert_eq!(
        Error::Fetch(smacktivity::FetchError::Status(404)).message(),
        "could not resolve a reference: the server answered with a status that is no success"
    );
    assert_eq!(smacktivity::FetchError::Malformed.message(), "the answer is no object");
}
