use smacktivity::ActivityStreamsType;
use smacktivity::LinkRelation;
use smacktivity::Property;
use smacktivity::Units;
use smacktivity::Url;

#[test]
fn type_names_are_the_variant_names() {
    assert_eq!(ActivityStreamsType::Object.tag(), "Object");
    assert_eq!(ActivityStreamsType::OrderedCollectionPage.tag(), "OrderedCollectionPage");
    assert_eq!(ActivityStreamsType::TentativeAccept.tag(), "TentativeAccept");
    assert_eq!(ActivityStreamsType::Mention.tag(), "Mention");
}

#[test]
fn type_names_are_read_back() {
    assert_eq!(ActivityStreamsType::from_tag("Person"), Some(ActivityStreamsType::Person));
    assert_eq!(ActivityStreamsType::from_tag("Note"), Some(ActivityStreamsType::Note));
    assert_eq!(
        ActivityStreamsType::from_tag("IntransitiveActivity"),
        Some(ActivityStreamsType::IntransitiveActivity)
    );
}

#[test]
fn unknown_type_names_are_refused() {
    assert_eq!(ActivityStreamsType::from_tag("person"), None);
    assert_eq!(ActivityStreamsType::from_tag("Banana"), None);
    assert_eq!(ActivityStreamsType::from_tag(""), None);
    assert_eq!(ActivityStreamsType::from_tag("Persons"), None);
}

#[test]
fn relations_are_written_in_kebab_case() {
    assert_eq!(LinkRelation::DnsPrefetch.tag(), "dns-prefetch");
    assert_eq!(LinkRelation::Modulepreload.tag(), "modulepreload");
    assert_eq!(LinkRelation::from_tag("dns-prefetch"), Some(LinkRelation::DnsPrefetch));
    assert_eq!(LinkRelation::from_tag("stylesheet"), Some(LinkRelation::Stylesheet));
    assert_eq!(LinkRelation::from_tag("DnsPrefetch"), None);
}

#[test]
fn property_keys_are_in_camel_case() {
    assert_eq!(Property::SchemaContext.name(), "@context");
    assert_eq!(Property::Type.name(), "type");
    assert_eq!(Property::AttributedTo.name(), "attributedTo");
    assert_eq!(Property::PreferredUsername.name(), "preferredUsername");
    assert_eq!(Property::from_name("inReplyTo"), Some(Property::InReplyTo));
    assert_eq!(Property::from_name("in_reply_to"), None);
    assert_eq!(Property::from_name("actors"), None);
    assert_eq!(Property::from_name("acto"), None);
}

#[test]
fn properties_keep_their_order() {
    assert_eq!(Property::at(0), Property::SchemaContext);
    assert_eq!(Property::at(1), Property::Type);
    assert_eq!(Property::at(2), Property::Id);
    assert_eq!(Property::at(72), Property::PreferredUsername);
    assert_eq!(Property::Actor.index(), 3);
    let mut place = 0;
    while place < smacktivity::property::PROPERTY_COUNT {
        assert_eq!(Property::at(place).index(), place);
        assert_eq!(Property::from_name(Property::at(place).name()), Some(Property::at(place)));
        place += 1;
    }
}

#[test]
fn pagination_cursors_are_not_resolved_with_the_whole_object() {
    assert!(Property::Actor.auto_resolved());
    assert!(Property::Liked.auto_resolved());
    assert!(!Property::Next.auto_resolved());
    assert!(!Property::Prev.auto_resolved());
    assert!(!Property::Url.auto_resolved());
    assert!(!Property::PartOf.auto_resolved());
    assert!(!Property::Name.auto_resolved());
    assert!(Property::Next.holds_links());
    assert!(!Property::Name.holds_links());
}

#[test]
fn units_are_words_or_urls() {
    assert_eq!(Units::from_text("cm"), Some(Units::Cm));
    assert_eq!(Units::from_text("miles"), Some(Units::Miles));
    assert_eq!(Units::from_text("m"), Some(Units::M));
    assert_eq!(Units::from_text("furlong"), None);
    let url = Url::parse("http://example.org/units/league").unwrap();
    assert_eq!(Units::from_text("http://example.org/units/league"), Some(Units::Url(url)));
    assert_eq!(Units::Km.to_text(), "km");
    assert_eq!(Units::Feet.to_text(), "feet");
    assert_eq!(Units::Inches.to_text(), "inches");
}

#[test]
fn urls_are_held_in_their_serialized_form() {
    let url = Url::parse("HTTPS://Example.COM/a/../b").unwrap();
    assert_eq!(url.as_str(), "https://example.com/b");
    assert_eq!(Url::parse(url.as_str()), Some(url.clone()));
    assert_eq!(Url::parse("not a url"), None);
    assert_eq!(Url::parse("/relative/path"), None);
    assert_eq!(Url::parse(""), None);
}

#[test]
fn a_place_beyond_the_last_holds_the_last_property() {
    assert_eq!(Property::at(73), Property::PreferredUsername);
    assert_eq!(Property::at(usize::MAX), Property::PreferredUsername);
    assert_eq!(smacktivity::property::PROPERTY_COUNT, 73);
}

#[test]
fn named_units_are_the_six_words() {
    assert_eq!(Units::named("inches"), Some(Units::Inches));
    assert_eq!(Units::named("feet"), Some(Units::Feet));
    assert_eq!(Units::named("km"), Some(Units::Km));
    assert_eq!(Units::named("http://example.org/units/league"), None);
    assert_eq!(Units::named("Cm"), None);
}

#[test]
fn common_urls_are_canonical() {
    assert!(Url::parse("https://example.org/a?b=c#d").unwrap().is_canonical());
    assert!(Url::parse("HTTPS://Example.COM/a/../b").unwrap().is_canonical());
    assert!(Url::parse("https://www.w3.org/ns/activitystreams").unwrap().is_canonical());
    assert!(Url::parse("as:sensitive").unwrap().is_canonical());
}

#[test]
fn a_url_is_canonical_exactly_when_it_parses_to_itself() {
    for text in ["file://host//C:/x", "file:///C:/x", "https://example.org", "http://[::1]:80/"] {
        let url = Url::parse(text).unwrap();
        let again = Url::parse(url.as_str()).unwrap();
        assert_eq!(url.is_canonical(), again == url);
    }
}

#[test]
fn a_host_before_a_drive_letter_is_lost_in_a_second_parse() {
    let url = Url::parse("file://host//C:/x").unwrap();
    assert_eq!(url.as_str(), "file://host/C:/x");
    assert_eq!(Url::parse(url.as_str()).unwrap().as_str(), "file:///C:/x");
    assert!(!url.is_canonical());
}

#[test]
fn units_are_canonical_unless_their_url_is_not() {
    assert!(Units::Cm.is_canonical());
    assert!(Units::from_text("http://example.org/units/league").unwrap().is_canonical());
    assert!(!Units::Url(Url::parse("file://host//C:/x").unwrap()).is_canonical());
}
