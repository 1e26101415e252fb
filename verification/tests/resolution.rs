use smacktivity::Action;
use smacktivity::ActivityStreamsType;
use smacktivity::Error;
use smacktivity::FetchError;
use smacktivity::LinkObject;
use smacktivity::NonFunctional;
use smacktivity::Object;
use smacktivity::Outcome;
use smacktivity::Property;
use smacktivity::Resolve;
use smacktivity::Resolved;
use smacktivity::Url;

fn address(value: &str) -> Url {
    Url::parse(value).unwrap()
}

fn link(value: &str) -> LinkObject {
    LinkObject::Url(address(value))
}

fn named(name: &str) -> Object {
    Object {
        type_: ActivityStreamsType::Person,
        name: NonFunctional::One(name.to_string()),
        ..Object::default()
    }
}

fn embedded(object: Object) -> LinkObject {
    LinkObject::Object(Box::new(object))
}

#[test]
fn a_name_of_no_property_is_not_resolvable() {
    assert_eq!(Property::target("banana"), Err(Error::NonResolvableProperty));
    assert_eq!(Property::target(""), Err(Error::NonResolvableProperty));
    assert_eq!(Property::target("name"), Err(Error::NonResolvableProperty));
    assert_eq!(Property::target("rest"), Err(Error::NonResolvableProperty));
    assert_eq!(Property::from_internal_name("inReplyTo"), Err(Error::NonResolvableProperty));
}

#[test]
fn a_property_is_selected_however_its_name_is_cased() {
    assert_eq!(Property::target("actor"), Ok(Property::Actor));
    assert_eq!(Property::target("Actor"), Ok(Property::Actor));
    assert_eq!(Property::target("inReplyTo"), Ok(Property::InReplyTo));
    assert_eq!(Property::target("in_reply_to"), Ok(Property::InReplyTo));
    assert_eq!(Property::target("in-reply-to"), Ok(Property::InReplyTo));
    assert_eq!(Property::target("InReplyTo"), Ok(Property::InReplyTo));
    assert_eq!(Property::target("ATTACHMENT"), Ok(Property::Attachment));
    assert_eq!(Property::target("next"), Ok(Property::Next));
    assert_eq!(Property::target("describes"), Ok(Property::Describes));
    assert_eq!(Property::from_internal_name("in_reply_to"), Ok(Property::InReplyTo));
}

#[test]
fn a_url_awaits_a_fetch_and_an_object_does_not() {
    assert_eq!(link("https://example.org/a").pending(), vec![address("https://example.org/a")]);
    assert_eq!(embedded(named("Ann")).pending(), Vec::new());
    let nothing: Option<LinkObject> = None;
    assert_eq!(nothing.pending(), Vec::new());
    assert_eq!(Some(link("https://example.org/a")).pending(), vec![address("https://example.org/a")]);
    let many = NonFunctional::Many(vec![
        link("https://example.org/a"),
        embedded(named("Ann")),
        link("https://example.org/b"),
    ]);
    assert_eq!(many.pending(), vec![address("https://example.org/a"), address("https://example.org/b")]);
    assert_eq!(NonFunctional::<LinkObject>::Absent.pending(), Vec::new());
    assert_eq!(NonFunctional::One(link("https://example.org/a")).pending().len(), 1);
}

#[test]
fn resolving_an_object_changes_nothing() {
    let mut held = embedded(named("Ann"));
    assert_eq!(held.pending(), Vec::new());
    assert_eq!(held.resolve(Vec::new()), Ok(()));
    assert_eq!(held, embedded(named("Ann")));
    assert_eq!(held.resolve(vec![Ok(named("Bob"))]), Ok(()));
    assert_eq!(held, embedded(named("Ann")));
    assert_eq!(held.resolve(vec![Err(FetchError::Transport)]), Ok(()));
    assert_eq!(held, embedded(named("Ann")));

    let mut many = NonFunctional::Many(vec![embedded(named("Ann")), embedded(named("Bob"))]);
    assert_eq!(many.resolve(vec![Ok(named("Eve"))]), Ok(()));
    assert_eq!(many, NonFunctional::Many(vec![embedded(named("Ann")), embedded(named("Bob"))]));
}

#[test]
fn two_urls_become_two_objects_in_order() {
    let mut many = NonFunctional::Many(vec![link("https://example.org/a"), link("https://example.org/b")]);
    assert_eq!(many.pending(), vec![address("https://example.org/a"), address("https://example.org/b")]);
    assert_eq!(many.resolve(vec![Ok(named("A")), Ok(named("B"))]), Ok(()));
    assert_eq!(many, NonFunctional::Many(vec![embedded(named("A")), embedded(named("B"))]));
    assert_eq!(many.pending(), Vec::new());
}

#[test]
fn outcomes_skip_the_links_that_hold_objects() {
    let mut many = NonFunctional::Many(vec![
        embedded(named("held")),
        link("https://example.org/a"),
        embedded(named("kept")),
        link("https://example.org/b"),
    ]);
    assert_eq!(many.resolve(vec![Ok(named("A")), Ok(named("B"))]), Ok(()));
    assert_eq!(
        many,
        NonFunctional::Many(vec![
            embedded(named("held")),
            embedded(named("A")),
            embedded(named("kept")),
            embedded(named("B")),
        ])
    );
}

#[test]
fn a_failed_fetch_leaves_its_url_and_keeps_the_rest() {
    let mut object = Object {
        attachment: NonFunctional::Many(vec![link("https://example.org/a"), link("https://example.org/b")]),
        ..Object::default()
    };
    let outcomes: Vec<Outcome> = vec![Ok(named("A")), Err(FetchError::Status(404))];
    assert_eq!(
        object.resolve_property(Property::Attachment, outcomes),
        Err(Error::Fetch(FetchError::Status(404)))
    );
    assert_eq!(
        object.attachment,
        NonFunctional::Many(vec![embedded(named("A")), link("https://example.org/b")])
    );
    assert_eq!(object.pending(Property::Attachment), vec![address("https://example.org/b")]);
}

#[test]
fn the_first_failure_is_the_one_returned() {
    let mut many = NonFunctional::Many(vec![
        link("https://example.org/a"),
        link("https://example.org/b"),
        link("https://example.org/c"),
    ]);
    let outcomes: Vec<Outcome> = vec![Err(FetchError::Malformed), Ok(named("B")), Err(FetchError::Transport)];
    assert_eq!(many.resolve(outcomes), Err(Error::Fetch(FetchError::Malformed)));
    assert_eq!(
        many,
        NonFunctional::Many(vec![
            link("https://example.org/a"),
            embedded(named("B")),
            link("https://example.org/c"),
        ])
    );
}

#[test]
fn missing_and_spare_outcomes() {
    let mut many = NonFunctional::Many(vec![link("https://example.org/a"), link("https://example.org/b")]);
    assert_eq!(many.resolve(vec![Ok(named("A"))]), Ok(()));
    assert_eq!(many, NonFunctional::Many(vec![embedded(named("A")), link("https://example.org/b")]));
    let spare: Vec<Outcome> = vec![Ok(named("B")), Err(FetchError::Transport)];
    assert_eq!(many.resolve(spare), Ok(()));
    assert_eq!(many, NonFunctional::Many(vec![embedded(named("A")), embedded(named("B"))]));
}

#[test]
fn one_property_is_resolved_and_no_other() {
    let mut object = Object {
        actor: NonFunctional::One(link("https://example.org/actor")),
        first: Some(link("https://example.org/first")),
        next: Some(link("https://example.org/next")),
        ..Object::default()
    };
    assert_eq!(object.pending(Property::Actor), vec![address("https://example.org/actor")]);
    assert_eq!(object.pending(Property::First), vec![address("https://example.org/first")]);
    assert_eq!(object.pending(Property::Next), vec![address("https://example.org/next")]);
    assert_eq!(object.pending(Property::Name), Vec::new());
    assert_eq!(object.pending(Property::Attachment), Vec::new());

    let fetched = Object { icon: NonFunctional::One(link("https://example.org/icon")), ..named("Ann") };
    assert_eq!(object.resolve_property(Property::First, vec![Ok(fetched)]), Ok(()));
    let fetched = Object { icon: NonFunctional::One(link("https://example.org/icon")), ..named("Ann") };
    assert_eq!(object.first, Some(embedded(fetched)));
    assert_eq!(object.actor, NonFunctional::One(link("https://example.org/actor")));
    assert_eq!(object.next, Some(link("https://example.org/next")));

    assert_eq!(object.resolve_property(Property::Name, vec![Ok(named("x"))]), Ok(()));
    assert_eq!(object.name, NonFunctional::Absent);
}

#[test]
fn resolved_gives_the_object_or_an_error() {
    let mut url = link("https://example.org/a");
    assert_eq!(url.resolved().err(), Some(Error::NotResolved));
    assert!(url.as_object_mut().is_none());
    assert_eq!(url, link("https://example.org/a"));

    let mut held = embedded(named("Ann"));
    match held.resolved() {
        Ok(object) => object.summary = NonFunctional::One("changed".to_string()),
        Err(_) => panic!("an object was expected"),
    }
    let expected = Object { summary: NonFunctional::One("changed".to_string()), ..named("Ann") };
    assert_eq!(held, embedded(expected));
    match held.as_object_mut() {
        Some(object) => object.type_ = ActivityStreamsType::Group,
        None => panic!("an object was expected"),
    }
    match held {
        LinkObject::Object(object) => assert_eq!(object.type_, ActivityStreamsType::Group),
        LinkObject::Url(_) => panic!("an object was expected"),
    }
}

fn remote(url: &Url) -> Outcome {
    match url.as_str() {
        "https://example.org/ann" => {
            Ok(Object { icon: NonFunctional::One(link("https://example.org/icon")), ..named("Ann") })
        },
        "https://example.org/icon" => Ok(Object { type_: ActivityStreamsType::Image, ..Object::default() }),
        "https://example.org/file" => Ok(Object { type_: ActivityStreamsType::Document, ..Object::default() }),
        "https://example.org/gone" => Err(FetchError::Status(410)),
        _ => Err(FetchError::Transport),
    }
}

fn run(object: Object, fetched: &mut Vec<String>) -> Result<Object, Error> {
    let mut resolver = object.resolve();
    loop {
        let (next, action) = resolver.action();
        match action {
            Action::Fetch(url) => {
                fetched.push(url.as_str().to_string());
                resolver = next.deliver(remote(&url))?;
            },
            Action::Finish => return next.finish(),
        }
    }
}

#[test]
fn a_whole_object_is_resolved_depth_first() {
    let inline = Object { actor: NonFunctional::One(link("https://example.org/other")), ..named("inline") };
    let object = Object {
        actor: NonFunctional::One(link("https://example.org/ann")),
        attachment: NonFunctional::Many(vec![
            link("https://example.org/file"),
            embedded(Object { actor: NonFunctional::One(link("https://example.org/other")), ..named("inline") }),
        ]),
        next: Some(link("https://example.org/page/2")),
        url: NonFunctional::One(link("https://example.org/page.html")),
        part_of: Some(link("https://example.org/collection")),
        ..Object::default()
    };
    let mut fetched = Vec::new();
    let resolved = run(object, &mut fetched).unwrap();
    assert_eq!(
        fetched,
        vec!["https://example.org/ann", "https://example.org/icon", "https://example.org/file"]
    );
    let icon = Object { type_: ActivityStreamsType::Image, ..Object::default() };
    let ann = Object { icon: NonFunctional::One(embedded(icon)), ..named("Ann") };
    let file = Object { type_: ActivityStreamsType::Document, ..Object::default() };
    let expected = Object {
        actor: NonFunctional::One(embedded(ann)),
        attachment: NonFunctional::Many(vec![embedded(file), embedded(inline)]),
        next: Some(link("https://example.org/page/2")),
        url: NonFunctional::One(link("https://example.org/page.html")),
        part_of: Some(link("https://example.org/collection")),
        ..Object::default()
    };
    assert_eq!(resolved, expected);
    assert_eq!(resolved.next_target(), None);
}

#[test]
fn an_object_without_links_is_done_at_once() {
    let mut fetched = Vec::new();
    assert_eq!(run(named("Ann"), &mut fetched), Ok(named("Ann")));
    assert!(fetched.is_empty());
}

#[test]
fn a_failed_fetch_ends_the_whole_resolution() {
    let object = Object {
        actor: NonFunctional::One(link("https://example.org/ann")),
        bcc: NonFunctional::One(link("https://example.org/gone")),
        cc: NonFunctional::One(link("https://example.org/file")),
        ..Object::default()
    };
    let mut fetched = Vec::new();
    assert_eq!(run(object, &mut fetched), Err(Error::Fetch(FetchError::Status(410))));
    assert_eq!(
        fetched,
        vec!["https://example.org/ann", "https://example.org/icon", "https://example.org/gone"]
    );
}

#[test]
fn finishing_early_is_an_error() {
    let object = Object { actor: NonFunctional::One(link("https://example.org/ann")), ..Object::default() };
    assert_eq!(object.resolve().finish(), Err(Error::NotResolved));

    let object = Object { actor: NonFunctional::One(link("https://example.org/ann")), ..Object::default() };
    let (resolver, action) = object.resolve().action();
    assert_eq!(action, Action::Fetch(address("https://example.org/ann")));
    let resolver = resolver.deliver(Ok(named("Ann"))).ok().unwrap();
    assert_eq!(resolver.finish(), Err(Error::NotResolved));
}

#[test]
fn an_outcome_that_nothing_awaits_is_dropped() {
    let resolver = named("Ann").resolve();
    let resolver = resolver.deliver(Ok(named("Bob"))).ok().unwrap();
    let (resolver, action) = resolver.action();
    assert_eq!(action, Action::Finish);
    assert_eq!(resolver.finish(), Ok(named("Ann")));
}

#[test]
fn the_next_target_follows_the_order_of_the_properties() {
    let object = Object {
        to: NonFunctional::One(link("https://example.org/to")),
        audience: NonFunctional::Many(vec![embedded(named("held")), link("https://example.org/audience")]),
        next: Some(link("https://example.org/next")),
        ..Object::default()
    };
    assert_eq!(object.next_target(), Some(Property::Audience));
    let object = Object { next: Some(link("https://example.org/next")), ..Object::default() };
    assert_eq!(object.next_target(), None);
}

#[test]
fn every_property_with_links_is_selected_by_its_key() {
    let mut place = 0;
    let mut selected = 0;
    while place < smacktivity::property::PROPERTY_COUNT {
        let property = Property::at(place);
        if property.holds_links() {
            assert_eq!(Property::target(property.name()), Ok(property));
            selected += 1;
        }
        place += 1;
    }
    assert_eq!(selected, 42);
}

#[test]
fn containers_of_containers_share_the_outcomes_in_order() {
    let mut nested: NonFunctional<NonFunctional<LinkObject>> = NonFunctional::Many(vec![
        NonFunctional::Many(vec![link("https://example.org/a"), link("https://example.org/b")]),
        NonFunctional::Absent,
        NonFunctional::One(link("https://example.org/c")),
    ]);
    assert_eq!(
        nested.pending(),
        vec![
            address("https://example.org/a"),
            address("https://example.org/b"),
            address("https://example.org/c"),
        ]
    );
    let outcomes: Vec<Outcome> = vec![Ok(named("A")), Err(FetchError::Malformed), Ok(named("C"))];
    assert_eq!(nested.resolve(outcomes), Err(Error::Fetch(FetchError::Malformed)));
    assert_eq!(
        nested,
        NonFunctional::Many(vec![
            NonFunctional::Many(vec![embedded(named("A")), link("https://example.org/b")]),
            NonFunctional::Absent,
            NonFunctional::One(embedded(named("C"))),
        ])
    );
}

#[test]
fn optional_values_in_a_container_are_resolved_too() {
    let mut values: NonFunctional<Option<LinkObject>> = NonFunctional::Many(vec![
        Some(link("https://example.org/a")),
        None,
        Some(embedded(named("held"))),
        Some(link("https://example.org/b")),
    ]);
    assert_eq!(values.pending().len(), 2);
    assert_eq!(values.resolve(vec![Ok(named("A")), Ok(named("B")), Ok(named("spare"))]), Ok(()));
    assert_eq!(
        values,
        NonFunctional::Many(vec![
            Some(embedded(named("A"))),
            None,
            Some(embedded(named("held"))),
            Some(embedded(named("B"))),
        ])
    );
    let mut optional: Option<NonFunctional<LinkObject>> =
        Some(NonFunctional::Many(vec![link("https://example.org/a"), link("https://example.org/b")]));
    assert_eq!(optional.resolve(vec![Ok(named("A"))]), Ok(()));
    assert_eq!(
        optional,
        Some(NonFunctional::Many(vec![embedded(named("A")), link("https://example.org/b")]))
    );
    let mut nothing: Option<NonFunctional<LinkObject>> = None;
    assert_eq!(nothing.pending(), Vec::new());
    assert_eq!(nothing.resolve(vec![Err(FetchError::Transport)]), Ok(()));
}
