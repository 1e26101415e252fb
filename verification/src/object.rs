//! Objects: the named properties of the vocabulary and the residual entries of
//! a document, how an object is written as a JSON tree, how it is read from
//! one, and that reading what was written gives the object back.

use crate::context::context_json;
use crate::context::context_of;
use crate::context::context_view;
use crate::context::context_wf;
use crate::context::lemma_context_round_trip;
use crate::context::text_context;
use crate::context::ActivityStreamsContext;
use crate::context::ContextView;
use crate::context::ACTIVITYSTREAMS_CONTEXT;
use crate::endpoints::endpoints_json;
use crate::endpoints::endpoints_of;
use crate::endpoints::endpoints_view;
use crate::endpoints::endpoints_wf;
use crate::endpoints::lemma_endpoints_round_trip;
use crate::endpoints::EndpointsProperty;
use crate::endpoints::EndpointsView;
use crate::error::Error;
use crate::json::distinct_keys;
use crate::json::entries_view;
use crate::json::has_key;
use crate::json::find;
use crate::json::lemma_entries_view;
use crate::json::lemma_lookup_concat;
use crate::json::lemma_position;
use crate::json::lemma_position_is;
use crate::json::lemma_position_none;
use crate::json::lookup;
use crate::json::position;
use crate::json::Json;
use crate::json::JsonView;
use crate::json::Number;
use crate::link::closed_json;
use crate::link::closed_of;
use crate::link::closed_view;
use crate::link::closed_wf;
use crate::link::embedded_json;
use crate::link::embedded_of;
use crate::link::embedded_view;
use crate::link::embedded_wf;
use crate::link::lemma_closed_round_trip;
use crate::link::lemma_link_json_shape;
use crate::link::lemma_links_json_shape;
use crate::link::lemma_embedded_round_trip;
use crate::link::lemma_link_option_round_trip;
use crate::link::lemma_links_round_trip;
use crate::link::link_option_json;
use crate::link::link_option_of;
use crate::link::link_option_view;
use crate::link::link_option_wf;
use crate::link::links_json;
use crate::link::links_of;
use crate::link::links_view;
use crate::link::links_wf;
use crate::link::ClosedProperty;
use crate::link::ClosedView;
use crate::link::LinkObject;
use crate::link::LinkView;
use crate::multiplicity::Multiplicity;
use crate::multiplicity::NonFunctional;
use crate::property::Property;
use crate::property::PROPERTY_COUNT;
use crate::scalars::address_from_json;
use crate::scalars::address_is_canonical;
use crate::scalars::relations_are_canonical;
use crate::scalars::texts_are_canonical;
use crate::units::units_are_canonical;
use crate::endpoints::endpoints_are_canonical;
use crate::link::closed_is_canonical;
use crate::link::embedded_is_canonical;
use crate::link::link_option_is_canonical;
use crate::link::links_are_canonical;
use crate::text::same_text;
use crate::scalars::address_json;
use crate::scalars::address_of;
use crate::scalars::address_view;
use crate::scalars::address_wf;
use crate::scalars::count_json;
use crate::scalars::count_of;
use crate::scalars::lemma_address_round_trip;
use crate::scalars::lemma_count_round_trip;
use crate::scalars::lemma_measure_round_trip;
use crate::scalars::lemma_relations_round_trip;
use crate::scalars::lemma_text_round_trip;
use crate::scalars::lemma_texts_round_trip;
use crate::scalars::lemma_type_round_trip;
use crate::scalars::measure_json;
use crate::scalars::measure_of;
use crate::scalars::relations_json;
use crate::scalars::relations_of;
use crate::scalars::relations_view;
use crate::scalars::text_json;
use crate::scalars::text_of;
use crate::scalars::text_view;
use crate::scalars::texts_json;
use crate::scalars::texts_of;
use crate::scalars::texts_view;
use crate::scalars::type_json;
use crate::scalars::type_of;
use crate::units::lemma_units_round_trip;
use crate::units::units_json;
use crate::units::units_of;
use crate::units::units_view;
use crate::units::units_wf;
use crate::units::Units;
use crate::units::UnitsView;
use crate::url::Url;
use crate::vocabulary::ActivityStreamsType;
use crate::vocabulary::LinkRelation;
use crate::scalars::address_to_json;
use crate::scalars::count_from_json;
use crate::scalars::count_to_json;
use crate::scalars::measure_from_json;
use crate::scalars::measure_to_json;
use crate::scalars::relations_from_json;
use crate::scalars::relations_to_json;
use crate::scalars::same_json;
use crate::scalars::text_from_json;
use crate::scalars::text_to_json;
use crate::scalars::texts_from_json;
use crate::scalars::texts_to_json;
use crate::scalars::type_from_json;
use crate::scalars::type_to_json;
use crate::units::units_from_json;
use crate::units::units_to_json;
use crate::endpoints::endpoints_from_json;
use crate::endpoints::endpoints_to_json;
use crate::link::closed_from_json;
use crate::link::closed_to_json;
use crate::link::embedded_from_json;
use crate::link::embedded_to_json;
use crate::link::link_option_from_json;
use crate::link::link_option_to_json;
use crate::link::links_from_json;
use crate::link::links_to_json;
use vstd::prelude::*;

verus! {

/// An ActivityStreams object: its named properties, and under `rest` every
/// entry of the document whose key names none of them.
#[derive(Debug, PartialEq, Eq)]
pub struct Object {
    pub schema_context: ActivityStreamsContext,
    pub type_: ActivityStreamsType,
    pub id: Option<Url>,
    pub actor: NonFunctional<LinkObject>,
    pub attachment: NonFunctional<LinkObject>,
    pub attributed_to: NonFunctional<LinkObject>,
    pub audience: NonFunctional<LinkObject>,
    pub bcc: NonFunctional<LinkObject>,
    pub bto: NonFunctional<LinkObject>,
    pub cc: NonFunctional<LinkObject>,
    pub context: NonFunctional<LinkObject>,
    pub current: Option<LinkObject>,
    pub first: Option<LinkObject>,
    pub generator: NonFunctional<LinkObject>,
    pub icon: NonFunctional<LinkObject>,
    pub image: NonFunctional<LinkObject>,
    pub in_reply_to: NonFunctional<LinkObject>,
    pub instrument: NonFunctional<LinkObject>,
    pub last: Option<LinkObject>,
    pub location: NonFunctional<LinkObject>,
    pub items: NonFunctional<LinkObject>,
    pub ordered_items: NonFunctional<LinkObject>,
    pub one_of: NonFunctional<LinkObject>,
    pub any_of: NonFunctional<LinkObject>,
    pub closed: Option<ClosedProperty>,
    pub origin: NonFunctional<LinkObject>,
    pub next: Option<LinkObject>,
    pub object: NonFunctional<LinkObject>,
    pub prev: Option<LinkObject>,
    pub preview: NonFunctional<LinkObject>,
    pub result: NonFunctional<LinkObject>,
    pub replies: NonFunctional<LinkObject>,
    pub tag: NonFunctional<LinkObject>,
    pub target: NonFunctional<LinkObject>,
    pub to: NonFunctional<LinkObject>,
    pub url: NonFunctional<LinkObject>,
    pub accuracy: Option<Number>,
    pub altitude: Option<Number>,
    pub content: NonFunctional<String>,
    pub name: NonFunctional<String>,
    pub duration: Option<String>,
    pub height: Option<u32>,
    pub href: Option<Url>,
    pub hreflang: Option<String>,
    pub part_of: Option<LinkObject>,
    pub latitude: Option<Number>,
    pub longitude: Option<Number>,
    pub media_type: Option<String>,
    pub end_time: Option<String>,
    pub published: Option<String>,
    pub start_time: Option<String>,
    pub radius: Option<Number>,
    pub rel: NonFunctional<LinkRelation>,
    pub start_index: Option<u32>,
    pub summary: NonFunctional<String>,
    pub total_items: Option<u32>,
    pub units: Option<Units>,
    pub updated: Option<String>,
    pub width: Option<u32>,
    pub subject: Option<LinkObject>,
    pub relationship: NonFunctional<LinkObject>,
    pub describes: Option<Box<Object>>,
    pub former_type: NonFunctional<LinkObject>,
    pub deleted: Option<String>,
    pub source: Option<Box<Object>>,
    pub inbox: Option<LinkObject>,
    pub outbox: Option<LinkObject>,
    pub following: Option<LinkObject>,
    pub followers: Option<LinkObject>,
    pub liked: Option<LinkObject>,
    pub streams: NonFunctional<LinkObject>,
    pub endpoints: Option<EndpointsProperty>,
    pub preferred_username: Option<String>,
    pub rest: Vec<(String, Json)>,
}

/// The mathematical value of an [`Object`].
pub ghost struct ObjectView {
    pub schema_context: ContextView,
    pub type_: ActivityStreamsType,
    pub id: Option<Seq<char>>,
    pub actor: Multiplicity<LinkView>,
    pub attachment: Multiplicity<LinkView>,
    pub attributed_to: Multiplicity<LinkView>,
    pub audience: Multiplicity<LinkView>,
    pub bcc: Multiplicity<LinkView>,
    pub bto: Multiplicity<LinkView>,
    pub cc: Multiplicity<LinkView>,
    pub context: Multiplicity<LinkView>,
    pub current: Option<LinkView>,
    pub first: Option<LinkView>,
    pub generator: Multiplicity<LinkView>,
    pub icon: Multiplicity<LinkView>,
    pub image: Multiplicity<LinkView>,
    pub in_reply_to: Multiplicity<LinkView>,
    pub instrument: Multiplicity<LinkView>,
    pub last: Option<LinkView>,
    pub location: Multiplicity<LinkView>,
    pub items: Multiplicity<LinkView>,
    pub ordered_items: Multiplicity<LinkView>,
    pub one_of: Multiplicity<LinkView>,
    pub any_of: Multiplicity<LinkView>,
    pub closed: Option<ClosedView>,
    pub origin: Multiplicity<LinkView>,
    pub next: Option<LinkView>,
    pub object: Multiplicity<LinkView>,
    pub prev: Option<LinkView>,
    pub preview: Multiplicity<LinkView>,
    pub result: Multiplicity<LinkView>,
    pub replies: Multiplicity<LinkView>,
    pub tag: Multiplicity<LinkView>,
    pub target: Multiplicity<LinkView>,
    pub to: Multiplicity<LinkView>,
    pub url: Multiplicity<LinkView>,
    pub accuracy: Option<Number>,
    pub altitude: Option<Number>,
    pub content: Multiplicity<Seq<char>>,
    pub name: Multiplicity<Seq<char>>,
    pub duration: Option<Seq<char>>,
    pub height: Option<u32>,
    pub href: Option<Seq<char>>,
    pub hreflang: Option<Seq<char>>,
    pub part_of: Option<LinkView>,
    pub latitude: Option<Number>,
    pub longitude: Option<Number>,
    pub media_type: Option<Seq<char>>,
    pub end_time: Option<Seq<char>>,
    pub published: Option<Seq<char>>,
    pub start_time: Option<Seq<char>>,
    pub radius: Option<Number>,
    pub rel: Multiplicity<LinkRelation>,
    pub start_index: Option<u32>,
    pub summary: Multiplicity<Seq<char>>,
    pub total_items: Option<u32>,
    pub units: Option<UnitsView>,
    pub updated: Option<Seq<char>>,
    pub width: Option<u32>,
    pub subject: Option<LinkView>,
    pub relationship: Multiplicity<LinkView>,
    pub describes: Option<Box<ObjectView>>,
    pub former_type: Multiplicity<LinkView>,
    pub deleted: Option<Seq<char>>,
    pub source: Option<Box<ObjectView>>,
    pub inbox: Option<LinkView>,
    pub outbox: Option<LinkView>,
    pub following: Option<LinkView>,
    pub followers: Option<LinkView>,
    pub liked: Option<LinkView>,
    pub streams: Multiplicity<LinkView>,
    pub endpoints: Option<EndpointsView>,
    pub preferred_username: Option<Seq<char>>,
    pub rest: Seq<(Seq<char>, JsonView)>,
}

/// The value of an object.
pub open spec fn object_view(object: Object) -> ObjectView
    decreases object, 0nat,
{
    ObjectView {
        schema_context: context_view(object.schema_context),
        type_: object.type_,
        id: address_view(object.id),
        actor: links_view(object.actor),
        attachment: links_view(object.attachment),
        attributed_to: links_view(object.attributed_to),
        audience: links_view(object.audience),
        bcc: links_view(object.bcc),
        bto: links_view(object.bto),
        cc: links_view(object.cc),
        context: links_view(object.context),
        current: link_option_view(object.current),
        first: link_option_view(object.first),
        generator: links_view(object.generator),
        icon: links_view(object.icon),
        image: links_view(object.image),
        in_reply_to: links_view(object.in_reply_to),
        instrument: links_view(object.instrument),
        last: link_option_view(object.last),
        location: links_view(object.location),
        items: links_view(object.items),
        ordered_items: links_view(object.ordered_items),
        one_of: links_view(object.one_of),
        any_of: links_view(object.any_of),
        closed: closed_view(object.closed),
        origin: links_view(object.origin),
        next: link_option_view(object.next),
        object: links_view(object.object),
        prev: link_option_view(object.prev),
        preview: links_view(object.preview),
        result: links_view(object.result),
        replies: links_view(object.replies),
        tag: links_view(object.tag),
        target: links_view(object.target),
        to: links_view(object.to),
        url: links_view(object.url),
        accuracy: object.accuracy,
        altitude: object.altitude,
        content: texts_view(object.content),
        name: texts_view(object.name),
        duration: text_view(object.duration),
        height: object.height,
        href: address_view(object.href),
        hreflang: text_view(object.hreflang),
        part_of: link_option_view(object.part_of),
        latitude: object.latitude,
        longitude: object.longitude,
        media_type: text_view(object.media_type),
        end_time: text_view(object.end_time),
        published: text_view(object.published),
        start_time: text_view(object.start_time),
        radius: object.radius,
        rel: relations_view(object.rel),
        start_index: object.start_index,
        summary: texts_view(object.summary),
        total_items: object.total_items,
        units: units_view(object.units),
        updated: text_view(object.updated),
        width: object.width,
        subject: link_option_view(object.subject),
        relationship: links_view(object.relationship),
        describes: embedded_view(object.describes),
        former_type: links_view(object.former_type),
        deleted: text_view(object.deleted),
        source: embedded_view(object.source),
        inbox: link_option_view(object.inbox),
        outbox: link_option_view(object.outbox),
        following: link_option_view(object.following),
        followers: link_option_view(object.followers),
        liked: link_option_view(object.liked),
        streams: links_view(object.streams),
        endpoints: endpoints_view(object.endpoints),
        preferred_username: text_view(object.preferred_username),
        rest: entries_view(object.rest@),
    }
}

impl View for Object {
    type V = ObjectView;

    open spec fn view(&self) -> ObjectView {
        object_view(*self)
    }
}

/// The object of type `Object` with the ActivityStreams context, without any
/// other property, and with the given residual entries.
pub open spec fn blank(rest: Seq<(Seq<char>, JsonView)>) -> ObjectView {
    ObjectView {
        schema_context: text_context(ACTIVITYSTREAMS_CONTEXT@),
        type_: ActivityStreamsType::Object,
        id: None,
        actor: Multiplicity::Absent,
        attachment: Multiplicity::Absent,
        attributed_to: Multiplicity::Absent,
        audience: Multiplicity::Absent,
        bcc: Multiplicity::Absent,
        bto: Multiplicity::Absent,
        cc: Multiplicity::Absent,
        context: Multiplicity::Absent,
        current: None,
        first: None,
        generator: Multiplicity::Absent,
        icon: Multiplicity::Absent,
        image: Multiplicity::Absent,
        in_reply_to: Multiplicity::Absent,
        instrument: Multiplicity::Absent,
        last: None,
        location: Multiplicity::Absent,
        items: Multiplicity::Absent,
        ordered_items: Multiplicity::Absent,
        one_of: Multiplicity::Absent,
        any_of: Multiplicity::Absent,
        closed: None,
        origin: Multiplicity::Absent,
        next: None,
        object: Multiplicity::Absent,
        prev: None,
        preview: Multiplicity::Absent,
        result: Multiplicity::Absent,
        replies: Multiplicity::Absent,
        tag: Multiplicity::Absent,
        target: Multiplicity::Absent,
        to: Multiplicity::Absent,
        url: Multiplicity::Absent,
        accuracy: None,
        altitude: None,
        content: Multiplicity::Absent,
        name: Multiplicity::Absent,
        duration: None,
        height: None,
        href: None,
        hreflang: None,
        part_of: None,
        latitude: None,
        longitude: None,
        media_type: None,
        end_time: None,
        published: None,
        start_time: None,
        radius: None,
        rel: Multiplicity::Absent,
        start_index: None,
        summary: Multiplicity::Absent,
        total_items: None,
        units: None,
        updated: None,
        width: None,
        subject: None,
        relationship: Multiplicity::Absent,
        describes: None,
        former_type: Multiplicity::Absent,
        deleted: None,
        source: None,
        inbox: None,
        outbox: None,
        following: None,
        followers: None,
        liked: None,
        streams: Multiplicity::Absent,
        endpoints: None,
        preferred_username: None,
        rest,
    }
}

// ---------------------------------------------------------------------------
// One property at a time
// ---------------------------------------------------------------------------
/// The tree that a property of an object is written as; `None` where the
/// property holds nothing and its key is left out.
pub open spec fn property_json(object: ObjectView, property: Property) -> Option<JsonView>
    decreases object, 0nat,
{
    match property {
        Property::SchemaContext => Some(context_json(object.schema_context)),
        Property::Type => type_json(object.type_),
        Property::Id => address_json(object.id),
        Property::Actor => links_json(object.actor),
        Property::Attachment => links_json(object.attachment),
        Property::AttributedTo => links_json(object.attributed_to),
        Property::Audience => links_json(object.audience),
        Property::Bcc => links_json(object.bcc),
        Property::Bto => links_json(object.bto),
        Property::Cc => links_json(object.cc),
        Property::Context => links_json(object.context),
        Property::Current => link_option_json(object.current),
        Property::First => link_option_json(object.first),
        Property::Generator => links_json(object.generator),
        Property::Icon => links_json(object.icon),
        Property::Image => links_json(object.image),
        Property::InReplyTo => links_json(object.in_reply_to),
        Property::Instrument => links_json(object.instrument),
        Property::Last => link_option_json(object.last),
        Property::Location => links_json(object.location),
        Property::Items => links_json(object.items),
        Property::OrderedItems => links_json(object.ordered_items),
        Property::OneOf => links_json(object.one_of),
        Property::AnyOf => links_json(object.any_of),
        Property::Closed => closed_json(object.closed),
        Property::Origin => links_json(object.origin),
        Property::Next => link_option_json(object.next),
        Property::Object => links_json(object.object),
        Property::Prev => link_option_json(object.prev),
        Property::Preview => links_json(object.preview),
        Property::Result => links_json(object.result),
        Property::Replies => links_json(object.replies),
        Property::Tag => links_json(object.tag),
        Property::Target => links_json(object.target),
        Property::To => links_json(object.to),
        Property::Url => links_json(object.url),
        Property::Accuracy => measure_json(object.accuracy),
        Property::Altitude => measure_json(object.altitude),
        Property::Content => texts_json(object.content),
        Property::Name => texts_json(object.name),
        Property::Duration => text_json(object.duration),
        Property::Height => count_json(object.height),
        Property::Href => address_json(object.href),
        Property::Hreflang => text_json(object.hreflang),
        Property::PartOf => link_option_json(object.part_of),
        Property::Latitude => measure_json(object.latitude),
        Property::Longitude => measure_json(object.longitude),
        Property::MediaType => text_json(object.media_type),
        Property::EndTime => text_json(object.end_time),
        Property::Published => text_json(object.published),
        Property::StartTime => text_json(object.start_time),
        Property::Radius => measure_json(object.radius),
        Property::Rel => relations_json(object.rel),
        Property::StartIndex => count_json(object.start_index),
        Property::Summary => texts_json(object.summary),
        Property::TotalItems => count_json(object.total_items),
        Property::Units => units_json(object.units),
        Property::Updated => text_json(object.updated),
        Property::Width => count_json(object.width),
        Property::Subject => link_option_json(object.subject),
        Property::Relationship => links_json(object.relationship),
        Property::Describes => embedded_json(object.describes),
        Property::FormerType => links_json(object.former_type),
        Property::Deleted => text_json(object.deleted),
        Property::Source => embedded_json(object.source),
        Property::Inbox => link_option_json(object.inbox),
        Property::Outbox => link_option_json(object.outbox),
        Property::Following => link_option_json(object.following),
        Property::Followers => link_option_json(object.followers),
        Property::Liked => link_option_json(object.liked),
        Property::Streams => links_json(object.streams),
        Property::Endpoints => endpoints_json(object.endpoints),
        Property::PreferredUsername => text_json(object.preferred_username),
    }
}

/// The object with a property replaced by what a tree is read as; `None`
/// where the tree has none of the shapes of that property.
pub open spec fn decode_property(object: ObjectView, property: Property, json: JsonView) -> Option<
    ObjectView,
>
    decreases json, 1002nat,
{
    match property {
        Property::SchemaContext => match context_of(json) {
            Some(value) => Some(ObjectView { schema_context: value, ..object }),
            None => None,
        },
        Property::Type => match type_of(json) {
            Some(value) => Some(ObjectView { type_: value, ..object }),
            None => None,
        },
        Property::Id => match address_of(json) {
            Some(value) => Some(ObjectView { id: value, ..object }),
            None => None,
        },
        Property::Actor => match links_of(json) {
            Some(value) => Some(ObjectView { actor: value, ..object }),
            None => None,
        },
        Property::Attachment => match links_of(json) {
            Some(value) => Some(ObjectView { attachment: value, ..object }),
            None => None,
        },
        Property::AttributedTo => match links_of(json) {
            Some(value) => Some(ObjectView { attributed_to: value, ..object }),
            None => None,
        },
        Property::Audience => match links_of(json) {
            Some(value) => Some(ObjectView { audience: value, ..object }),
            None => None,
        },
        Property::Bcc => match links_of(json) {
            Some(value) => Some(ObjectView { bcc: value, ..object }),
            None => None,
        },
        Property::Bto => match links_of(json) {
            Some(value) => Some(ObjectView { bto: value, ..object }),
            None => None,
        },
        Property::Cc => match links_of(json) {
            Some(value) => Some(ObjectView { cc: value, ..object }),
            None => None,
        },
        Property::Context => match links_of(json) {
            Some(value) => Some(ObjectView { context: value, ..object }),
            None => None,
        },
        Property::Current => match link_option_of(json) {
            Some(value) => Some(ObjectView { current: value, ..object }),
            None => None,
        },
        Property::First => match link_option_of(json) {
            Some(value) => Some(ObjectView { first: value, ..object }),
            None => None,
        },
        Property::Generator => match links_of(json) {
            Some(value) => Some(ObjectView { generator: value, ..object }),
            None => None,
        },
        Property::Icon => match links_of(json) {
            Some(value) => Some(ObjectView { icon: value, ..object }),
            None => None,
        },
        Property::Image => match links_of(json) {
            Some(value) => Some(ObjectView { image: value, ..object }),
            None => None,
        },
        Property::InReplyTo => match links_of(json) {
            Some(value) => Some(ObjectView { in_reply_to: value, ..object }),
            None => None,
        },
        Property::Instrument => match links_of(json) {
            Some(value) => Some(ObjectView { instrument: value, ..object }),
            None => None,
        },
        Property::Last => match link_option_of(json) {
            Some(value) => Some(ObjectView { last: value, ..object }),
            None => None,
        },
        Property::Location => match links_of(json) {
            Some(value) => Some(ObjectView { location: value, ..object }),
            None => None,
        },
        Property::Items => match links_of(json) {
            Some(value) => Some(ObjectView { items: value, ..object }),
            None => None,
        },
        Property::OrderedItems => match links_of(json) {
            Some(value) => Some(ObjectView { ordered_items: value, ..object }),
            None => None,
        },
        Property::OneOf => match links_of(json) {
            Some(value) => Some(ObjectView { one_of: value, ..object }),
            None => None,
        },
        Property::AnyOf => match links_of(json) {
            Some(value) => Some(ObjectView { any_of: value, ..object }),
            None => None,
        },
        Property::Closed => match closed_of(json) {
            Some(value) => Some(ObjectView { closed: value, ..object }),
            None => None,
        },
        Property::Origin => match links_of(json) {
            Some(value) => Some(ObjectView { origin: value, ..object }),
            None => None,
        },
        Property::Next => match link_option_of(json) {
            Some(value) => Some(ObjectView { next: value, ..object }),
            None => None,
        },
        Property::Object => match links_of(json) {
            Some(value) => Some(ObjectView { object: value, ..object }),
            None => None,
        },
        Property::Prev => match link_option_of(json) {
            Some(value) => Some(ObjectView { prev: value, ..object }),
            None => None,
        },
        Property::Preview => match links_of(json) {
            Some(value) => Some(ObjectView { preview: value, ..object }),
            None => None,
        },
        Property::Result => match links_of(json) {
            Some(value) => Some(ObjectView { result: value, ..object }),
            None => None,
        },
        Property::Replies => match links_of(json) {
            Some(value) => Some(ObjectView { replies: value, ..object }),
            None => None,
        },
        Property::Tag => match links_of(json) {
            Some(value) => Some(ObjectView { tag: value, ..object }),
            None => None,
        },
        Property::Target => match links_of(json) {
            Some(value) => Some(ObjectView { target: value, ..object }),
            None => None,
        },
        Property::To => match links_of(json) {
            Some(value) => Some(ObjectView { to: value, ..object }),
            None => None,
        },
        Property::Url => match links_of(json) {
            Some(value) => Some(ObjectView { url: value, ..object }),
            None => None,
        },
        Property::Accuracy => match measure_of(json) {
            Some(value) => Some(ObjectView { accuracy: value, ..object }),
            None => None,
        },
        Property::Altitude => match measure_of(json) {
            Some(value) => Some(ObjectView { altitude: value, ..object }),
            None => None,
        },
        Property::Content => match texts_of(json) {
            Some(value) => Some(ObjectView { content: value, ..object }),
            None => None,
        },
        Property::Name => match texts_of(json) {
            Some(value) => Some(ObjectView { name: value, ..object }),
            None => None,
        },
        Property::Duration => match text_of(json) {
            Some(value) => Some(ObjectView { duration: value, ..object }),
            None => None,
        },
        Property::Height => match count_of(json) {
            Some(value) => Some(ObjectView { height: value, ..object }),
            None => None,
        },
        Property::Href => match address_of(json) {
            Some(value) => Some(ObjectView { href: value, ..object }),
            None => None,
        },
        Property::Hreflang => match text_of(json) {
            Some(value) => Some(ObjectView { hreflang: value, ..object }),
            None => None,
        },
        Property::PartOf => match link_option_of(json) {
            Some(value) => Some(ObjectView { part_of: value, ..object }),
            None => None,
        },
        Property::Latitude => match measure_of(json) {
            Some(value) => Some(ObjectView { latitude: value, ..object }),
            None => None,
        },
        Property::Longitude => match measure_of(json) {
            Some(value) => Some(ObjectView { longitude: value, ..object }),
            None => None,
        },
        Property::MediaType => match text_of(json) {
            Some(value) => Some(ObjectView { media_type: value, ..object }),
            None => None,
        },
        Property::EndTime => match text_of(json) {
            Some(value) => Some(ObjectView { end_time: value, ..object }),
            None => None,
        },
        Property::Published => match text_of(json) {
            Some(value) => Some(ObjectView { published: value, ..object }),
            None => None,
        },
        Property::StartTime => match text_of(json) {
            Some(value) => Some(ObjectView { start_time: value, ..object }),
            None => None,
        },
        Property::Radius => match measure_of(json) {
            Some(value) => Some(ObjectView { radius: value, ..object }),
            None => None,
        },
        Property::Rel => match relations_of(json) {
            Some(value) => Some(ObjectView { rel: value, ..object }),
            None => None,
        },
        Property::StartIndex => match count_of(json) {
            Some(value) => Some(ObjectView { start_index: value, ..object }),
            None => None,
        },
        Property::Summary => match texts_of(json) {
            Some(value) => Some(ObjectView { summary: value, ..object }),
            None => None,
        },
        Property::TotalItems => match count_of(json) {
            Some(value) => Some(ObjectView { total_items: value, ..object }),
            None => None,
        },
        Property::Units => match units_of(json) {
            Some(value) => Some(ObjectView { units: value, ..object }),
            None => None,
        },
        Property::Updated => match text_of(json) {
            Some(value) => Some(ObjectView { updated: value, ..object }),
            None => None,
        },
        Property::Width => match count_of(json) {
            Some(value) => Some(ObjectView { width: value, ..object }),
            None => None,
        },
        Property::Subject => match link_option_of(json) {
            Some(value) => Some(ObjectView { subject: value, ..object }),
            None => None,
        },
        Property::Relationship => match links_of(json) {
            Some(value) => Some(ObjectView { relationship: value, ..object }),
            None => None,
        },
        Property::Describes => match embedded_of(json) {
            Some(value) => Some(ObjectView { describes: value, ..object }),
            None => None,
        },
        Property::FormerType => match links_of(json) {
            Some(value) => Some(ObjectView { former_type: value, ..object }),
            None => None,
        },
        Property::Deleted => match text_of(json) {
            Some(value) => Some(ObjectView { deleted: value, ..object }),
            None => None,
        },
        Property::Source => match embedded_of(json) {
            Some(value) => Some(ObjectView { source: value, ..object }),
            None => None,
        },
        Property::Inbox => match link_option_of(json) {
            Some(value) => Some(ObjectView { inbox: value, ..object }),
            None => None,
        },
        Property::Outbox => match link_option_of(json) {
            Some(value) => Some(ObjectView { outbox: value, ..object }),
            None => None,
        },
        Property::Following => match link_option_of(json) {
            Some(value) => Some(ObjectView { following: value, ..object }),
            None => None,
        },
        Property::Followers => match link_option_of(json) {
            Some(value) => Some(ObjectView { followers: value, ..object }),
            None => None,
        },
        Property::Liked => match link_option_of(json) {
            Some(value) => Some(ObjectView { liked: value, ..object }),
            None => None,
        },
        Property::Streams => match links_of(json) {
            Some(value) => Some(ObjectView { streams: value, ..object }),
            None => None,
        },
        Property::Endpoints => match endpoints_of(json) {
            Some(value) => Some(ObjectView { endpoints: value, ..object }),
            None => None,
        },
        Property::PreferredUsername => match text_of(json) {
            Some(value) => Some(ObjectView { preferred_username: value, ..object }),
            None => None,
        },
    }
}

/// The object with a property replaced by that property of another object.
pub open spec fn take_property(object: ObjectView, property: Property, source: ObjectView) -> ObjectView {
    match property {
        Property::SchemaContext => ObjectView { schema_context: source.schema_context, ..object },
        Property::Type => ObjectView { type_: source.type_, ..object },
        Property::Id => ObjectView { id: source.id, ..object },
        Property::Actor => ObjectView { actor: source.actor, ..object },
        Property::Attachment => ObjectView { attachment: source.attachment, ..object },
        Property::AttributedTo => ObjectView { attributed_to: source.attributed_to, ..object },
        Property::Audience => ObjectView { audience: source.audience, ..object },
        Property::Bcc => ObjectView { bcc: source.bcc, ..object },
        Property::Bto => ObjectView { bto: source.bto, ..object },
        Property::Cc => ObjectView { cc: source.cc, ..object },
        Property::Context => ObjectView { context: source.context, ..object },
        Property::Current => ObjectView { current: source.current, ..object },
        Property::First => ObjectView { first: source.first, ..object },
        Property::Generator => ObjectView { generator: source.generator, ..object },
        Property::Icon => ObjectView { icon: source.icon, ..object },
        Property::Image => ObjectView { image: source.image, ..object },
        Property::InReplyTo => ObjectView { in_reply_to: source.in_reply_to, ..object },
        Property::Instrument => ObjectView { instrument: source.instrument, ..object },
        Property::Last => ObjectView { last: source.last, ..object },
        Property::Location => ObjectView { location: source.location, ..object },
        Property::Items => ObjectView { items: source.items, ..object },
        Property::OrderedItems => ObjectView { ordered_items: source.ordered_items, ..object },
        Property::OneOf => ObjectView { one_of: source.one_of, ..object },
        Property::AnyOf => ObjectView { any_of: source.any_of, ..object },
        Property::Closed => ObjectView { closed: source.closed, ..object },
        Property::Origin => ObjectView { origin: source.origin, ..object },
        Property::Next => ObjectView { next: source.next, ..object },
        Property::Object => ObjectView { object: source.object, ..object },
        Property::Prev => ObjectView { prev: source.prev, ..object },
        Property::Preview => ObjectView { preview: source.preview, ..object },
        Property::Result => ObjectView { result: source.result, ..object },
        Property::Replies => ObjectView { replies: source.replies, ..object },
        Property::Tag => ObjectView { tag: source.tag, ..object },
        Property::Target => ObjectView { target: source.target, ..object },
        Property::To => ObjectView { to: source.to, ..object },
        Property::Url => ObjectView { url: source.url, ..object },
        Property::Accuracy => ObjectView { accuracy: source.accuracy, ..object },
        Property::Altitude => ObjectView { altitude: source.altitude, ..object },
        Property::Content => ObjectView { content: source.content, ..object },
        Property::Name => ObjectView { name: source.name, ..object },
        Property::Duration => ObjectView { duration: source.duration, ..object },
        Property::Height => ObjectView { height: source.height, ..object },
        Property::Href => ObjectView { href: source.href, ..object },
        Property::Hreflang => ObjectView { hreflang: source.hreflang, ..object },
        Property::PartOf => ObjectView { part_of: source.part_of, ..object },
        Property::Latitude => ObjectView { latitude: source.latitude, ..object },
        Property::Longitude => ObjectView { longitude: source.longitude, ..object },
        Property::MediaType => ObjectView { media_type: source.media_type, ..object },
        Property::EndTime => ObjectView { end_time: source.end_time, ..object },
        Property::Published => ObjectView { published: source.published, ..object },
        Property::StartTime => ObjectView { start_time: source.start_time, ..object },
        Property::Radius => ObjectView { radius: source.radius, ..object },
        Property::Rel => ObjectView { rel: source.rel, ..object },
        Property::StartIndex => ObjectView { start_index: source.start_index, ..object },
        Property::Summary => ObjectView { summary: source.summary, ..object },
        Property::TotalItems => ObjectView { total_items: source.total_items, ..object },
        Property::Units => ObjectView { units: source.units, ..object },
        Property::Updated => ObjectView { updated: source.updated, ..object },
        Property::Width => ObjectView { width: source.width, ..object },
        Property::Subject => ObjectView { subject: source.subject, ..object },
        Property::Relationship => ObjectView { relationship: source.relationship, ..object },
        Property::Describes => ObjectView { describes: source.describes, ..object },
        Property::FormerType => ObjectView { former_type: source.former_type, ..object },
        Property::Deleted => ObjectView { deleted: source.deleted, ..object },
        Property::Source => ObjectView { source: source.source, ..object },
        Property::Inbox => ObjectView { inbox: source.inbox, ..object },
        Property::Outbox => ObjectView { outbox: source.outbox, ..object },
        Property::Following => ObjectView { following: source.following, ..object },
        Property::Followers => ObjectView { followers: source.followers, ..object },
        Property::Liked => ObjectView { liked: source.liked, ..object },
        Property::Streams => ObjectView { streams: source.streams, ..object },
        Property::Endpoints => ObjectView { endpoints: source.endpoints, ..object },
        Property::PreferredUsername => ObjectView { preferred_username: source.preferred_username, ..object },
    }
}

/// Whether two objects hold the same value in a property.
pub open spec fn same_at(left: ObjectView, right: ObjectView, property: Property) -> bool {
    match property {
        Property::SchemaContext => left.schema_context == right.schema_context,
        Property::Type => left.type_ == right.type_,
        Property::Id => left.id == right.id,
        Property::Actor => left.actor == right.actor,
        Property::Attachment => left.attachment == right.attachment,
        Property::AttributedTo => left.attributed_to == right.attributed_to,
        Property::Audience => left.audience == right.audience,
        Property::Bcc => left.bcc == right.bcc,
        Property::Bto => left.bto == right.bto,
        Property::Cc => left.cc == right.cc,
        Property::Context => left.context == right.context,
        Property::Current => left.current == right.current,
        Property::First => left.first == right.first,
        Property::Generator => left.generator == right.generator,
        Property::Icon => left.icon == right.icon,
        Property::Image => left.image == right.image,
        Property::InReplyTo => left.in_reply_to == right.in_reply_to,
        Property::Instrument => left.instrument == right.instrument,
        Property::Last => left.last == right.last,
        Property::Location => left.location == right.location,
        Property::Items => left.items == right.items,
        Property::OrderedItems => left.ordered_items == right.ordered_items,
        Property::OneOf => left.one_of == right.one_of,
        Property::AnyOf => left.any_of == right.any_of,
        Property::Closed => left.closed == right.closed,
        Property::Origin => left.origin == right.origin,
        Property::Next => left.next == right.next,
        Property::Object => left.object == right.object,
        Property::Prev => left.prev == right.prev,
        Property::Preview => left.preview == right.preview,
        Property::Result => left.result == right.result,
        Property::Replies => left.replies == right.replies,
        Property::Tag => left.tag == right.tag,
        Property::Target => left.target == right.target,
        Property::To => left.to == right.to,
        Property::Url => left.url == right.url,
        Property::Accuracy => left.accuracy == right.accuracy,
        Property::Altitude => left.altitude == right.altitude,
        Property::Content => left.content == right.content,
        Property::Name => left.name == right.name,
        Property::Duration => left.duration == right.duration,
        Property::Height => left.height == right.height,
        Property::Href => left.href == right.href,
        Property::Hreflang => left.hreflang == right.hreflang,
        Property::PartOf => left.part_of == right.part_of,
        Property::Latitude => left.latitude == right.latitude,
        Property::Longitude => left.longitude == right.longitude,
        Property::MediaType => left.media_type == right.media_type,
        Property::EndTime => left.end_time == right.end_time,
        Property::Published => left.published == right.published,
        Property::StartTime => left.start_time == right.start_time,
        Property::Radius => left.radius == right.radius,
        Property::Rel => left.rel == right.rel,
        Property::StartIndex => left.start_index == right.start_index,
        Property::Summary => left.summary == right.summary,
        Property::TotalItems => left.total_items == right.total_items,
        Property::Units => left.units == right.units,
        Property::Updated => left.updated == right.updated,
        Property::Width => left.width == right.width,
        Property::Subject => left.subject == right.subject,
        Property::Relationship => left.relationship == right.relationship,
        Property::Describes => left.describes == right.describes,
        Property::FormerType => left.former_type == right.former_type,
        Property::Deleted => left.deleted == right.deleted,
        Property::Source => left.source == right.source,
        Property::Inbox => left.inbox == right.inbox,
        Property::Outbox => left.outbox == right.outbox,
        Property::Following => left.following == right.following,
        Property::Followers => left.followers == right.followers,
        Property::Liked => left.liked == right.liked,
        Property::Streams => left.streams == right.streams,
        Property::Endpoints => left.endpoints == right.endpoints,
        Property::PreferredUsername => left.preferred_username == right.preferred_username,
    }
}

/// Whether an object holds a canonical value in a property.
pub open spec fn property_wf(object: ObjectView, property: Property) -> bool
    decreases object, 0nat,
{
    match property {
        Property::SchemaContext => context_wf(object.schema_context),
        Property::Type => true,
        Property::Id => address_wf(object.id),
        Property::Actor => links_wf(object.actor),
        Property::Attachment => links_wf(object.attachment),
        Property::AttributedTo => links_wf(object.attributed_to),
        Property::Audience => links_wf(object.audience),
        Property::Bcc => links_wf(object.bcc),
        Property::Bto => links_wf(object.bto),
        Property::Cc => links_wf(object.cc),
        Property::Context => links_wf(object.context),
        Property::Current => link_option_wf(object.current),
        Property::First => link_option_wf(object.first),
        Property::Generator => links_wf(object.generator),
        Property::Icon => links_wf(object.icon),
        Property::Image => links_wf(object.image),
        Property::InReplyTo => links_wf(object.in_reply_to),
        Property::Instrument => links_wf(object.instrument),
        Property::Last => link_option_wf(object.last),
        Property::Location => links_wf(object.location),
        Property::Items => links_wf(object.items),
        Property::OrderedItems => links_wf(object.ordered_items),
        Property::OneOf => links_wf(object.one_of),
        Property::AnyOf => links_wf(object.any_of),
        Property::Closed => closed_wf(object.closed),
        Property::Origin => links_wf(object.origin),
        Property::Next => link_option_wf(object.next),
        Property::Object => links_wf(object.object),
        Property::Prev => link_option_wf(object.prev),
        Property::Preview => links_wf(object.preview),
        Property::Result => links_wf(object.result),
        Property::Replies => links_wf(object.replies),
        Property::Tag => links_wf(object.tag),
        Property::Target => links_wf(object.target),
        Property::To => links_wf(object.to),
        Property::Url => links_wf(object.url),
        Property::Accuracy => true,
        Property::Altitude => true,
        Property::Content => object.content.is_normal(),
        Property::Name => object.name.is_normal(),
        Property::Duration => true,
        Property::Height => true,
        Property::Href => address_wf(object.href),
        Property::Hreflang => true,
        Property::PartOf => link_option_wf(object.part_of),
        Property::Latitude => true,
        Property::Longitude => true,
        Property::MediaType => true,
        Property::EndTime => true,
        Property::Published => true,
        Property::StartTime => true,
        Property::Radius => true,
        Property::Rel => object.rel.is_normal(),
        Property::StartIndex => true,
        Property::Summary => object.summary.is_normal(),
        Property::TotalItems => true,
        Property::Units => units_wf(object.units),
        Property::Updated => true,
        Property::Width => true,
        Property::Subject => link_option_wf(object.subject),
        Property::Relationship => links_wf(object.relationship),
        Property::Describes => embedded_wf(object.describes),
        Property::FormerType => links_wf(object.former_type),
        Property::Deleted => true,
        Property::Source => embedded_wf(object.source),
        Property::Inbox => link_option_wf(object.inbox),
        Property::Outbox => link_option_wf(object.outbox),
        Property::Following => link_option_wf(object.following),
        Property::Followers => link_option_wf(object.followers),
        Property::Liked => link_option_wf(object.liked),
        Property::Streams => links_wf(object.streams),
        Property::Endpoints => endpoints_wf(object.endpoints),
        Property::PreferredUsername => true,
    }
}

/// Whether the entries can be the residual entries of an object: no key
/// names a property, and no key occurs twice.
pub open spec fn rest_wf(rest: Seq<(Seq<char>, JsonView)>) -> bool {
    &&& forall|i: int| 0 <= i < rest.len() ==> Property::from_name_spec((#[trigger] rest[i]).0) is None
    &&& distinct_keys(rest)
}

/// An object is canonical when reading what it is written as gives it back:
/// every property holds a canonical value, no residual entry stands under
/// the key of a property, and no two residual entries under the same key.
pub open spec fn object_wf(object: ObjectView) -> bool
    decreases object, PROPERTY_COUNT + 4,
{
    &&& properties_wf_upto(object, PROPERTY_COUNT as nat)
    &&& rest_wf(object.rest)
}

/// Whether an object holds canonical values in its first `n` properties.
pub open spec fn properties_wf_upto(object: ObjectView, n: nat) -> bool
    decreases object, n + 2,
{
    if n == 0 || n > PROPERTY_COUNT {
        true
    } else {
        properties_wf_upto(object, (n - 1) as nat) && property_wf(
            object,
            Property::at_spec((n - 1) as nat),
        )
    }
}

/// An object whose first `n` properties are canonical holds a canonical
/// value in each of them.
pub proof fn lemma_properties_wf(object: ObjectView, n: nat, property: Property)
    requires
        n <= PROPERTY_COUNT,
        properties_wf_upto(object, n),
        property.index_spec() < n,
    ensures
        property_wf(object, property),
    decreases n,
{
    Property::lemma_places();
    if property.index_spec() < n - 1 {
        lemma_properties_wf(object, (n - 1) as nat, property);
    } else {
        assert(Property::at_spec((n - 1) as nat) == property);
    }
}

// ---------------------------------------------------------------------------
// Writing
// ---------------------------------------------------------------------------
/// The entry that a property is written as: none where it holds nothing.
pub open spec fn property_entry(object: ObjectView, property: Property) -> Seq<(Seq<char>, JsonView)>
    decreases object, 1nat,
{
    match property_json(object, property) {
        Some(json) => seq![(property.name_spec(), json)],
        None => Seq::empty(),
    }
}

/// The entries that the first `n` properties are written as, in order.
pub open spec fn named_entries(object: ObjectView, n: nat) -> Seq<(Seq<char>, JsonView)>
    decreases object, n + 2,
{
    if n == 0 || n > PROPERTY_COUNT {
        Seq::empty()
    } else {
        named_entries(object, (n - 1) as nat) + property_entry(object, Property::at_spec((n - 1) as nat))
    }
}

/// The tree that an object is written as: a JSON object with an entry for
/// each property that holds something, in the order of the properties,
/// followed by the residual entries.
pub open spec fn object_json(object: ObjectView) -> JsonView
    decreases object, PROPERTY_COUNT + 4,
{
    JsonView::Object(named_entries(object, PROPERTY_COUNT as nat) + object.rest)
}

// ---------------------------------------------------------------------------
// Reading
// ---------------------------------------------------------------------------
/// The entries whose key names no property, in order; of several entries
/// under one key, the first.
pub open spec fn residual(entries: Seq<(Seq<char>, JsonView)>) -> Seq<(Seq<char>, JsonView)>
    decreases entries.len(),
{
    if entries.len() == 0 {
        Seq::empty()
    } else {
        let before = residual(entries.drop_last());
        if Property::from_name_spec(entries.last().0) is None && !has_key(before, entries.last().0) {
            before.push(entries.last())
        } else {
            before
        }
    }
}

/// The error that an unreadable value of a property gives.
pub open spec fn error_of(property: Property) -> Error {
    match property {
        Property::SchemaContext => Error::InvalidContext,
        Property::Type => Error::UnknownType,
        _ => Error::InvalidProperty(property),
    }
}

/// What reading the first `n` properties from the entries of a JSON object
/// gives: the object read so far, or the error of the first property whose
/// value cannot be read.
///
/// A position is always within the entries; the test for it is there to
/// show that reading the value goes deeper into the tree.
pub open spec fn decoded(json: JsonView, n: nat) -> Result<ObjectView, Error>
    decreases json, n + 1,
{
    match json {
        JsonView::Object(entries) => if n == 0 || n > PROPERTY_COUNT {
            Ok(blank(residual(entries)))
        } else {
            match decoded(json, (n - 1) as nat) {
                Ok(object) => {
                    let property = Property::at_spec((n - 1) as nat);
                    match position(entries, property.name_spec()) {
                        Some(i) => if 0 <= i < entries.len() {
                            match decode_property(object, property, entries[i].1) {
                                Some(read) => Ok(read),
                                None => Err(error_of(property)),
                            }
                        } else {
                            Ok(object)
                        },
                        None => Ok(object),
                    }
                },
                Err(error) => Err(error),
            }
        },
        _ => Err(Error::NotAnObject),
    }
}

/// The object that a tree is read as. A property whose key is missing keeps
/// the value it has in a blank object; where a key occurs twice, the first
/// entry counts and the others are passed over.
pub open spec fn object_of(json: JsonView) -> Result<ObjectView, Error>
    decreases json, PROPERTY_COUNT + 2,
{
    decoded(json, PROPERTY_COUNT as nat)
}

// ---------------------------------------------------------------------------
// Reading what was written
// ---------------------------------------------------------------------------
/// Reading what a canonical property is written as gives the property back;
/// a property that is left out holds what it holds in a blank object.
pub proof fn lemma_property_round_trip(object: ObjectView, property: Property, onto: ObjectView)
    requires
        property_wf(object, property),
    ensures
        match property_json(object, property) {
            Some(json) => decode_property(onto, property, json) == Some(
                take_property(onto, property, object),
            ),
            None => same_at(object, blank(Seq::empty()), property),
        },
    decreases object, 0nat,
{
    match property {
        Property::SchemaContext => {
            lemma_context_round_trip(object.schema_context);
        },
        Property::Type => {
            lemma_type_round_trip(object.type_);
        },
        Property::Id => {
            lemma_address_round_trip(object.id);
        },
        Property::Actor => {
            lemma_links_round_trip(object.actor);
        },
        Property::Attachment => {
            lemma_links_round_trip(object.attachment);
        },
        Property::AttributedTo => {
            lemma_links_round_trip(object.attributed_to);
        },
        Property::Audience => {
            lemma_links_round_trip(object.audience);
        },
        Property::Bcc => {
            lemma_links_round_trip(object.bcc);
        },
        Property::Bto => {
            lemma_links_round_trip(object.bto);
        },
        Property::Cc => {
            lemma_links_round_trip(object.cc);
        },
        Property::Context => {
            lemma_links_round_trip(object.context);
        },
        Property::Current => {
            lemma_link_option_round_trip(object.current);
        },
        Property::First => {
            lemma_link_option_round_trip(object.first);
        },
        Property::Generator => {
            lemma_links_round_trip(object.generator);
        },
        Property::Icon => {
            lemma_links_round_trip(object.icon);
        },
        Property::Image => {
            lemma_links_round_trip(object.image);
        },
        Property::InReplyTo => {
            lemma_links_round_trip(object.in_reply_to);
        },
        Property::Instrument => {
            lemma_links_round_trip(object.instrument);
        },
        Property::Last => {
            lemma_link_option_round_trip(object.last);
        },
        Property::Location => {
            lemma_links_round_trip(object.location);
        },
        Property::Items => {
            lemma_links_round_trip(object.items);
        },
        Property::OrderedItems => {
            lemma_links_round_trip(object.ordered_items);
        },
        Property::OneOf => {
            lemma_links_round_trip(object.one_of);
        },
        Property::AnyOf => {
            lemma_links_round_trip(object.any_of);
        },
        Property::Closed => {
            lemma_closed_round_trip(object.closed);
        },
        Property::Origin => {
            lemma_links_round_trip(object.origin);
        },
        Property::Next => {
            lemma_link_option_round_trip(object.next);
        },
        Property::Object => {
            lemma_links_round_trip(object.object);
        },
        Property::Prev => {
            lemma_link_option_round_trip(object.prev);
        },
        Property::Preview => {
            lemma_links_round_trip(object.preview);
        },
        Property::Result => {
            lemma_links_round_trip(object.result);
        },
        Property::Replies => {
            lemma_links_round_trip(object.replies);
        },
        Property::Tag => {
            lemma_links_round_trip(object.tag);
        },
        Property::Target => {
            lemma_links_round_trip(object.target);
        },
        Property::To => {
            lemma_links_round_trip(object.to);
        },
        Property::Url => {
            lemma_links_round_trip(object.url);
        },
        Property::Accuracy => {
            lemma_measure_round_trip(object.accuracy);
        },
        Property::Altitude => {
            lemma_measure_round_trip(object.altitude);
        },
        Property::Content => {
            lemma_texts_round_trip(object.content);
        },
        Property::Name => {
            lemma_texts_round_trip(object.name);
        },
        Property::Duration => {
            lemma_text_round_trip(object.duration);
        },
        Property::Height => {
            lemma_count_round_trip(object.height);
        },
        Property::Href => {
            lemma_address_round_trip(object.href);
        },
        Property::Hreflang => {
            lemma_text_round_trip(object.hreflang);
        },
        Property::PartOf => {
            lemma_link_option_round_trip(object.part_of);
        },
        Property::Latitude => {
            lemma_measure_round_trip(object.latitude);
        },
        Property::Longitude => {
            lemma_measure_round_trip(object.longitude);
        },
        Property::MediaType => {
            lemma_text_round_trip(object.media_type);
        },
        Property::EndTime => {
            lemma_text_round_trip(object.end_time);
        },
        Property::Published => {
            lemma_text_round_trip(object.published);
        },
        Property::StartTime => {
            lemma_text_round_trip(object.start_time);
        },
        Property::Radius => {
            lemma_measure_round_trip(object.radius);
        },
        Property::Rel => {
            lemma_relations_round_trip(object.rel);
        },
        Property::StartIndex => {
            lemma_count_round_trip(object.start_index);
        },
        Property::Summary => {
            lemma_texts_round_trip(object.summary);
        },
        Property::TotalItems => {
            lemma_count_round_trip(object.total_items);
        },
        Property::Units => {
            lemma_units_round_trip(object.units);
        },
        Property::Updated => {
            lemma_text_round_trip(object.updated);
        },
        Property::Width => {
            lemma_count_round_trip(object.width);
        },
        Property::Subject => {
            lemma_link_option_round_trip(object.subject);
        },
        Property::Relationship => {
            lemma_links_round_trip(object.relationship);
        },
        Property::Describes => {
            lemma_embedded_round_trip(object.describes);
        },
        Property::FormerType => {
            lemma_links_round_trip(object.former_type);
        },
        Property::Deleted => {
            lemma_text_round_trip(object.deleted);
        },
        Property::Source => {
            lemma_embedded_round_trip(object.source);
        },
        Property::Inbox => {
            lemma_link_option_round_trip(object.inbox);
        },
        Property::Outbox => {
            lemma_link_option_round_trip(object.outbox);
        },
        Property::Following => {
            lemma_link_option_round_trip(object.following);
        },
        Property::Followers => {
            lemma_link_option_round_trip(object.followers);
        },
        Property::Liked => {
            lemma_link_option_round_trip(object.liked);
        },
        Property::Streams => {
            lemma_links_round_trip(object.streams);
        },
        Property::Endpoints => {
            lemma_endpoints_round_trip(object.endpoints);
        },
        Property::PreferredUsername => {
            lemma_text_round_trip(object.preferred_username);
        },
    }
}

/// Two objects that hold the same value in every property, and the same
/// residual entries, are the same object.
#[verifier::spinoff_prover]
#[verifier::rlimit(60)]
pub proof fn lemma_same_everywhere(left: ObjectView, right: ObjectView)
    requires
        forall|property: Property| #[trigger] same_at(left, right, property),
        left.rest == right.rest,
    ensures
        left == right,
{
    assert(same_at(left, right, Property::SchemaContext));
    assert(same_at(left, right, Property::Type));
    assert(same_at(left, right, Property::Id));
    assert(same_at(left, right, Property::Actor));
    assert(same_at(left, right, Property::Attachment));
    assert(same_at(left, right, Property::AttributedTo));
    assert(same_at(left, right, Property::Audience));
    assert(same_at(left, right, Property::Bcc));
    assert(same_at(left, right, Property::Bto));
    assert(same_at(left, right, Property::Cc));
    assert(same_at(left, right, Property::Context));
    assert(same_at(left, right, Property::Current));
    assert(same_at(left, right, Property::First));
    assert(same_at(left, right, Property::Generator));
    assert(same_at(left, right, Property::Icon));
    assert(same_at(left, right, Property::Image));
    assert(same_at(left, right, Property::InReplyTo));
    assert(same_at(left, right, Property::Instrument));
    assert(same_at(left, right, Property::Last));
    assert(same_at(left, right, Property::Location));
    assert(same_at(left, right, Property::Items));
    assert(same_at(left, right, Property::OrderedItems));
    assert(same_at(left, right, Property::OneOf));
    assert(same_at(left, right, Property::AnyOf));
    assert(same_at(left, right, Property::Closed));
    assert(same_at(left, right, Property::Origin));
    assert(same_at(left, right, Property::Next));
    assert(same_at(left, right, Property::Object));
    assert(same_at(left, right, Property::Prev));
    assert(same_at(left, right, Property::Preview));
    assert(same_at(left, right, Property::Result));
    assert(same_at(left, right, Property::Replies));
    assert(same_at(left, right, Property::Tag));
    assert(same_at(left, right, Property::Target));
    assert(same_at(left, right, Property::To));
    assert(same_at(left, right, Property::Url));
    assert(same_at(left, right, Property::Accuracy));
    assert(same_at(left, right, Property::Altitude));
    assert(same_at(left, right, Property::Content));
    assert(same_at(left, right, Property::Name));
    assert(same_at(left, right, Property::Duration));
    assert(same_at(left, right, Property::Height));
    assert(same_at(left, right, Property::Href));
    assert(same_at(left, right, Property::Hreflang));
    assert(same_at(left, right, Property::PartOf));
    assert(same_at(left, right, Property::Latitude));
    assert(same_at(left, right, Property::Longitude));
    assert(same_at(left, right, Property::MediaType));
    assert(same_at(left, right, Property::EndTime));
    assert(same_at(left, right, Property::Published));
    assert(same_at(left, right, Property::StartTime));
    assert(same_at(left, right, Property::Radius));
    assert(same_at(left, right, Property::Rel));
    assert(same_at(left, right, Property::StartIndex));
    assert(same_at(left, right, Property::Summary));
    assert(same_at(left, right, Property::TotalItems));
    assert(same_at(left, right, Property::Units));
    assert(same_at(left, right, Property::Updated));
    assert(same_at(left, right, Property::Width));
    assert(same_at(left, right, Property::Subject));
    assert(same_at(left, right, Property::Relationship));
    assert(same_at(left, right, Property::Describes));
    assert(same_at(left, right, Property::FormerType));
    assert(same_at(left, right, Property::Deleted));
    assert(same_at(left, right, Property::Source));
    assert(same_at(left, right, Property::Inbox));
    assert(same_at(left, right, Property::Outbox));
    assert(same_at(left, right, Property::Following));
    assert(same_at(left, right, Property::Followers));
    assert(same_at(left, right, Property::Liked));
    assert(same_at(left, right, Property::Streams));
    assert(same_at(left, right, Property::Endpoints));
    assert(same_at(left, right, Property::PreferredUsername));
}

/// The object with every property up to a place taken from `object`, every
/// other property blank, and the residual entries of `object`.
pub open spec fn merged(object: ObjectView, n: nat) -> ObjectView
    decreases n,
{
    if n == 0 || n > PROPERTY_COUNT {
        blank(object.rest)
    } else {
        take_property(merged(object, (n - 1) as nat), Property::at_spec((n - 1) as nat), object)
    }
}

/// What `merged` holds in each property.
pub proof fn lemma_merged(object: ObjectView, n: nat)
    requires
        n <= PROPERTY_COUNT,
    ensures
        merged(object, n).rest == object.rest,
        forall|property: Property|
            #![trigger same_at(merged(object, n), object, property)]
            property.index_spec() < n ==> same_at(merged(object, n), object, property),
        forall|property: Property|
            #![trigger same_at(merged(object, n), blank(Seq::empty()), property)]
            property.index_spec() >= n ==> same_at(merged(object, n), blank(Seq::empty()), property),
    decreases n,
{
    Property::lemma_places();
    if n > 0 {
        lemma_merged(object, (n - 1) as nat);
        let before = merged(object, (n - 1) as nat);
        let taken = Property::at_spec((n - 1) as nat);
        assert(taken.index_spec() == n - 1);
        assert forall|property: Property| property.index_spec() < n implies same_at(
            merged(object, n),
            object,
            property,
        ) by {
            assert(Property::at_spec(property.index_spec()) == property);
            if property != taken {
                assert(same_at(before, object, property));
            }
        }
        assert forall|property: Property| property.index_spec() >= n implies same_at(
            merged(object, n),
            blank(Seq::empty()),
            property,
        ) by {
            assert(same_at(before, blank(Seq::empty()), property));
        }
    }
}

/// The keys of the entries of the first `n` properties name properties.
pub proof fn lemma_named_entries_keys(object: ObjectView, n: nat)
    requires
        n <= PROPERTY_COUNT,
    ensures
        forall|i: int|
            0 <= i < named_entries(object, n).len() ==> {
                let entry = #[trigger] named_entries(object, n)[i];
                Property::from_name_spec(entry.0) matches Some(property) && property.index_spec() < n
                    && property_json(object, property) == Some(entry.1)
            },
    decreases n,
{
    if n > 0 {
        lemma_named_entries_keys(object, (n - 1) as nat);
        let property = Property::at_spec((n - 1) as nat);
        Property::lemma_places();
        property.lemma_name_round_trip();
        let front = named_entries(object, (n - 1) as nat);
        assert forall|i: int| 0 <= i < named_entries(object, n).len() implies {
            let entry = #[trigger] named_entries(object, n)[i];
            Property::from_name_spec(entry.0) matches Some(property) && property.index_spec() < n
                && property_json(object, property) == Some(entry.1)
        } by {
            let entry = property_entry(object, property);
            assert(named_entries(object, n) == front + entry);
            if i < front.len() {
                assert(named_entries(object, n)[i] == front[i]);
            } else {
                assert(named_entries(object, n)[i] == entry[i - front.len()]);
            }
        }
    }
}

/// Looking up the key of a property among the entries of the first `n`
/// properties finds what that property is written as, where it is among
/// them, and nothing otherwise.
pub proof fn lemma_named_entries_lookup(object: ObjectView, n: nat, property: Property)
    requires
        n <= PROPERTY_COUNT,
    ensures
        lookup(named_entries(object, n), property.name_spec()) == if property.index_spec() < n {
            property_json(object, property)
        } else {
            None
        },
    decreases n,
{
    Property::lemma_places();
    if n == 0 {
        lemma_position_none(named_entries(object, n), property.name_spec());
    } else {
        lemma_named_entries_lookup(object, (n - 1) as nat, property);
        let last = Property::at_spec((n - 1) as nat);
        let front = named_entries(object, (n - 1) as nat);
        let entry = property_entry(object, last);
        lemma_lookup_concat(front, entry, property.name_spec());
        if last == property {
            if property_json(object, property) is Some {
                lemma_position_is(entry, property.name_spec(), 0);
            } else {
                lemma_position_none(entry, property.name_spec());
            }
        } else {
            if last.name_spec() == property.name_spec() {
                last.lemma_names_differ(property);
            }
            lemma_position_none(entry, property.name_spec());
        }
    }
}

/// Entries whose keys all name properties leave no residual entries.
pub proof fn lemma_residual_of_named(entries: Seq<(Seq<char>, JsonView)>)
    requires
        forall|i: int| 0 <= i < entries.len() ==> Property::from_name_spec((#[trigger] entries[i]).0) is Some,
    ensures
        residual(entries) == Seq::<(Seq<char>, JsonView)>::empty(),
    decreases entries.len(),
{
    if entries.len() > 0 {
        assert forall|i: int| 0 <= i < entries.drop_last().len() implies Property::from_name_spec(
            (#[trigger] entries.drop_last()[i]).0,
        ) is Some by {
            assert(entries.drop_last()[i] == entries[i]);
        }
        lemma_residual_of_named(entries.drop_last());
        assert(Property::from_name_spec(entries[entries.len() - 1].0) is Some);
    }
}

/// The residual entries of the entries of properties followed by residual
/// entries are those residual entries.
pub proof fn lemma_residual_of_written(named: Seq<(Seq<char>, JsonView)>, rest: Seq<(Seq<char>, JsonView)>)
    requires
        forall|i: int| 0 <= i < named.len() ==> Property::from_name_spec((#[trigger] named[i]).0) is Some,
        rest_wf(rest),
    ensures
        residual(named + rest) == rest,
    decreases rest.len(),
{
    if rest.len() == 0 {
        assert(named + rest =~= named);
        lemma_residual_of_named(named);
    } else {
        let shorter = rest.drop_last();
        assert forall|i: int| 0 <= i < shorter.len() implies Property::from_name_spec(
            (#[trigger] shorter[i]).0,
        ) is None by {
            assert(shorter[i] == rest[i]);
        }
        assert(distinct_keys(shorter)) by {
            assert forall|i: int, j: int| 0 <= i < j < shorter.len() implies (#[trigger] shorter[i]).0 != (
            #[trigger] shorter[j]).0 by {
                assert(shorter[i] == rest[i]);
                assert(shorter[j] == rest[j]);
            }
        }
        lemma_residual_of_written(named, shorter);
        assert((named + rest).drop_last() =~= named + shorter);
        assert((named + rest).last() == rest.last());
        assert(Property::from_name_spec(rest[rest.len() - 1].0) is None);
        assert(!has_key(shorter, rest.last().0)) by {
            lemma_position(shorter, rest.last().0);
            if position(shorter, rest.last().0) is Some {
                let at = position(shorter, rest.last().0)->0;
                assert(shorter[at] == rest[at]);
                assert(rest[at].0 != rest[rest.len() - 1].0);
            }
        }
        assert(shorter.push(rest.last()) =~= rest);
    }
}

/// Reading the first `n` properties of what a canonical object is written as
/// gives those properties of the object, on a blank object.
pub proof fn lemma_decoded_prefix(object: ObjectView, n: nat)
    requires
        object_wf(object),
        n <= PROPERTY_COUNT,
    ensures
        decoded(object_json(object), n) == Ok::<ObjectView, Error>(merged(object, n)),
    decreases object, n + 1,
{
    let named = named_entries(object, PROPERTY_COUNT as nat);
    let entries = named + object.rest;
    if n == 0 {
        lemma_named_entries_keys(object, PROPERTY_COUNT as nat);
        assert forall|i: int| 0 <= i < named.len() implies Property::from_name_spec(
            (#[trigger] named[i]).0,
        ) is Some by {
        }
        lemma_residual_of_written(named, object.rest);
    } else {
        lemma_decoded_prefix(object, (n - 1) as nat);
        let property = Property::at_spec((n - 1) as nat);
        let before = merged(object, (n - 1) as nat);
        Property::lemma_places();
        lemma_properties_wf(object, PROPERTY_COUNT as nat, property);
        lemma_property_round_trip(object, property, before);
        lemma_named_entries_lookup(object, PROPERTY_COUNT as nat, property);
        lemma_lookup_concat(named, object.rest, property.name_spec());
        lemma_position(entries, property.name_spec());
        property.lemma_name_round_trip();
        assert(lookup(object.rest, property.name_spec()) is None) by {
            lemma_position(object.rest, property.name_spec());
        }
        lemma_merged(object, (n - 1) as nat);
        match property_json(object, property) {
            Some(json) => {
                assert(lookup(entries, property.name_spec()) == Some(json));
            },
            None => {
                assert(lookup(entries, property.name_spec()) is None);
                assert(same_at(before, blank(Seq::empty()), property));
                assert(take_property(before, property, object) == before) by {
                    lemma_take_same(before, property, object);
                }
            },
        }
    }
}

/// Taking a property from an object that holds the same value in it changes
/// nothing.
pub proof fn lemma_take_same(object: ObjectView, property: Property, source: ObjectView)
    requires
        same_at(object, source, property),
    ensures
        take_property(object, property, source) == object,
{
}

/// Reading what a canonical object is written as gives the object back.
pub proof fn lemma_object_round_trip(object: ObjectView)
    requires
        object_wf(object),
    ensures
        object_of(object_json(object)) == Ok::<ObjectView, Error>(object),
    decreases object, PROPERTY_COUNT + 2,
{
    lemma_decoded_prefix(object, PROPERTY_COUNT as nat);
    lemma_merged(object, PROPERTY_COUNT as nat);
    Property::lemma_places();
    let read = merged(object, PROPERTY_COUNT as nat);
    assert forall|property: Property| #[trigger] same_at(read, object, property) by {
        assert(property.index_spec() < PROPERTY_COUNT);
    }
    lemma_same_everywhere(read, object);
}

// ---------------------------------------------------------------------------
// Canonical objects
// ---------------------------------------------------------------------------
/// An object that holds a canonical value in every property holds canonical
/// values in its first `n` properties.
pub proof fn lemma_all_properties_wf(object: ObjectView, n: nat)
    requires
        forall|property: Property| #[trigger] property_wf(object, property),
    ensures
        properties_wf_upto(object, n),
    decreases n,
{
    if n > 0 && n <= PROPERTY_COUNT {
        lemma_all_properties_wf(object, (n - 1) as nat);
        assert(property_wf(object, Property::at_spec((n - 1) as nat)));
    }
}

/// Taking one property from another object changes no other property.
pub proof fn lemma_take_frame(object: ObjectView, taken: Property, source: ObjectView, property: Property)
    requires
        property != taken,
    ensures
        same_at(take_property(object, taken, source), object, property),
        take_property(object, taken, source).rest == object.rest,
{
}

/// Whether a property holds a canonical value depends on the value of that
/// property alone.
pub proof fn lemma_wf_same(left: ObjectView, right: ObjectView, property: Property)
    requires
        same_at(left, right, property),
    ensures
        property_wf(left, property) == property_wf(right, property),
{
}

// ---------------------------------------------------------------------------
// What is left out
// ---------------------------------------------------------------------------
/// Whether a property of an object holds nothing. The context and the type
/// always hold something.
pub open spec fn holds_nothing(object: ObjectView, property: Property) -> bool {
    match property {
        Property::SchemaContext => false,
        Property::Type => false,
        Property::Id => object.id is None,
        Property::Actor => object.actor.elements().len() == 0,
        Property::Attachment => object.attachment.elements().len() == 0,
        Property::AttributedTo => object.attributed_to.elements().len() == 0,
        Property::Audience => object.audience.elements().len() == 0,
        Property::Bcc => object.bcc.elements().len() == 0,
        Property::Bto => object.bto.elements().len() == 0,
        Property::Cc => object.cc.elements().len() == 0,
        Property::Context => object.context.elements().len() == 0,
        Property::Current => object.current is None,
        Property::First => object.first is None,
        Property::Generator => object.generator.elements().len() == 0,
        Property::Icon => object.icon.elements().len() == 0,
        Property::Image => object.image.elements().len() == 0,
        Property::InReplyTo => object.in_reply_to.elements().len() == 0,
        Property::Instrument => object.instrument.elements().len() == 0,
        Property::Last => object.last is None,
        Property::Location => object.location.elements().len() == 0,
        Property::Items => object.items.elements().len() == 0,
        Property::OrderedItems => object.ordered_items.elements().len() == 0,
        Property::OneOf => object.one_of.elements().len() == 0,
        Property::AnyOf => object.any_of.elements().len() == 0,
        Property::Closed => object.closed is None,
        Property::Origin => object.origin.elements().len() == 0,
        Property::Next => object.next is None,
        Property::Object => object.object.elements().len() == 0,
        Property::Prev => object.prev is None,
        Property::Preview => object.preview.elements().len() == 0,
        Property::Result => object.result.elements().len() == 0,
        Property::Replies => object.replies.elements().len() == 0,
        Property::Tag => object.tag.elements().len() == 0,
        Property::Target => object.target.elements().len() == 0,
        Property::To => object.to.elements().len() == 0,
        Property::Url => object.url.elements().len() == 0,
        Property::Accuracy => object.accuracy is None,
        Property::Altitude => object.altitude is None,
        Property::Content => object.content.elements().len() == 0,
        Property::Name => object.name.elements().len() == 0,
        Property::Duration => object.duration is None,
        Property::Height => object.height is None,
        Property::Href => object.href is None,
        Property::Hreflang => object.hreflang is None,
        Property::PartOf => object.part_of is None,
        Property::Latitude => object.latitude is None,
        Property::Longitude => object.longitude is None,
        Property::MediaType => object.media_type is None,
        Property::EndTime => object.end_time is None,
        Property::Published => object.published is None,
        Property::StartTime => object.start_time is None,
        Property::Radius => object.radius is None,
        Property::Rel => object.rel.elements().len() == 0,
        Property::StartIndex => object.start_index is None,
        Property::Summary => object.summary.elements().len() == 0,
        Property::TotalItems => object.total_items is None,
        Property::Units => object.units is None,
        Property::Updated => object.updated is None,
        Property::Width => object.width is None,
        Property::Subject => object.subject is None,
        Property::Relationship => object.relationship.elements().len() == 0,
        Property::Describes => object.describes is None,
        Property::FormerType => object.former_type.elements().len() == 0,
        Property::Deleted => object.deleted is None,
        Property::Source => object.source is None,
        Property::Inbox => object.inbox is None,
        Property::Outbox => object.outbox is None,
        Property::Following => object.following is None,
        Property::Followers => object.followers is None,
        Property::Liked => object.liked is None,
        Property::Streams => object.streams.elements().len() == 0,
        Property::Endpoints => object.endpoints is None,
        Property::PreferredUsername => object.preferred_username is None,
    }
}

/// A property is left out of what an object is written as exactly when it
/// holds nothing.
pub proof fn lemma_nothing_is_left_out(object: ObjectView, property: Property)
    ensures
        holds_nothing(object, property) <==> property_json(object, property) is None,
{
}

/// What a property is written as is never `null`.
pub proof fn lemma_never_null(object: ObjectView, property: Property)
    ensures
        property_json(object, property) != Some(JsonView::Null),
{
    match property {
        Property::SchemaContext => {},
        Property::Type => {},
        Property::Id => {},
        Property::Actor => {
            lemma_links_json_shape(object.actor);
        },
        Property::Attachment => {
            lemma_links_json_shape(object.attachment);
        },
        Property::AttributedTo => {
            lemma_links_json_shape(object.attributed_to);
        },
        Property::Audience => {
            lemma_links_json_shape(object.audience);
        },
        Property::Bcc => {
            lemma_links_json_shape(object.bcc);
        },
        Property::Bto => {
            lemma_links_json_shape(object.bto);
        },
        Property::Cc => {
            lemma_links_json_shape(object.cc);
        },
        Property::Context => {
            lemma_links_json_shape(object.context);
        },
        Property::Current => {
            if let Some(link) = object.current {
                lemma_link_json_shape(link);
            }
        },
        Property::First => {
            if let Some(link) = object.first {
                lemma_link_json_shape(link);
            }
        },
        Property::Generator => {
            lemma_links_json_shape(object.generator);
        },
        Property::Icon => {
            lemma_links_json_shape(object.icon);
        },
        Property::Image => {
            lemma_links_json_shape(object.image);
        },
        Property::InReplyTo => {
            lemma_links_json_shape(object.in_reply_to);
        },
        Property::Instrument => {
            lemma_links_json_shape(object.instrument);
        },
        Property::Last => {
            if let Some(link) = object.last {
                lemma_link_json_shape(link);
            }
        },
        Property::Location => {
            lemma_links_json_shape(object.location);
        },
        Property::Items => {
            lemma_links_json_shape(object.items);
        },
        Property::OrderedItems => {
            lemma_links_json_shape(object.ordered_items);
        },
        Property::OneOf => {
            lemma_links_json_shape(object.one_of);
        },
        Property::AnyOf => {
            lemma_links_json_shape(object.any_of);
        },
        Property::Closed => {
            if let Some(ClosedView::Object(link)) = object.closed {
                lemma_link_json_shape(link);
            }
        },
        Property::Origin => {
            lemma_links_json_shape(object.origin);
        },
        Property::Next => {
            if let Some(link) = object.next {
                lemma_link_json_shape(link);
            }
        },
        Property::Object => {
            lemma_links_json_shape(object.object);
        },
        Property::Prev => {
            if let Some(link) = object.prev {
                lemma_link_json_shape(link);
            }
        },
        Property::Preview => {
            lemma_links_json_shape(object.preview);
        },
        Property::Result => {
            lemma_links_json_shape(object.result);
        },
        Property::Replies => {
            lemma_links_json_shape(object.replies);
        },
        Property::Tag => {
            lemma_links_json_shape(object.tag);
        },
        Property::Target => {
            lemma_links_json_shape(object.target);
        },
        Property::To => {
            lemma_links_json_shape(object.to);
        },
        Property::Url => {
            lemma_links_json_shape(object.url);
        },
        Property::Accuracy => {},
        Property::Altitude => {},
        Property::Content => {},
        Property::Name => {},
        Property::Duration => {},
        Property::Height => {},
        Property::Href => {},
        Property::Hreflang => {},
        Property::PartOf => {
            if let Some(link) = object.part_of {
                lemma_link_json_shape(link);
            }
        },
        Property::Latitude => {},
        Property::Longitude => {},
        Property::MediaType => {},
        Property::EndTime => {},
        Property::Published => {},
        Property::StartTime => {},
        Property::Radius => {},
        Property::Rel => {},
        Property::StartIndex => {},
        Property::Summary => {},
        Property::TotalItems => {},
        Property::Units => {},
        Property::Updated => {},
        Property::Width => {},
        Property::Subject => {
            if let Some(link) = object.subject {
                lemma_link_json_shape(link);
            }
        },
        Property::Relationship => {
            lemma_links_json_shape(object.relationship);
        },
        Property::Describes => {},
        Property::FormerType => {
            lemma_links_json_shape(object.former_type);
        },
        Property::Deleted => {},
        Property::Source => {},
        Property::Inbox => {
            if let Some(link) = object.inbox {
                lemma_link_json_shape(link);
            }
        },
        Property::Outbox => {
            if let Some(link) = object.outbox {
                lemma_link_json_shape(link);
            }
        },
        Property::Following => {
            if let Some(link) = object.following {
                lemma_link_json_shape(link);
            }
        },
        Property::Followers => {
            if let Some(link) = object.followers {
                lemma_link_json_shape(link);
            }
        },
        Property::Liked => {
            if let Some(link) = object.liked {
                lemma_link_json_shape(link);
            }
        },
        Property::Streams => {
            lemma_links_json_shape(object.streams);
        },
        Property::Endpoints => {},
        Property::PreferredUsername => {},
    }
}

/// In what a canonical object is written as, no entry stands under the key
/// of a property that holds nothing, and no entry under the key of a
/// property is `null`.
pub proof fn lemma_written_keys(object: ObjectView, property: Property)
    requires
        rest_wf(object.rest),
    ensures
        object_json(object) matches JsonView::Object(entries) && forall|i: int|
            0 <= i < entries.len() && (#[trigger] entries[i]).0 == property.name_spec() ==> {
                &&& !holds_nothing(object, property)
                &&& entries[i].1 != JsonView::Null
            },
{
    let named = named_entries(object, PROPERTY_COUNT as nat);
    let entries = named + object.rest;
    lemma_named_entries_keys(object, PROPERTY_COUNT as nat);
    property.lemma_name_round_trip();
    lemma_nothing_is_left_out(object, property);
    lemma_never_null(object, property);
    assert forall|i: int|
        0 <= i < entries.len() && (#[trigger] entries[i]).0 == property.name_spec() implies {
        &&& !holds_nothing(object, property)
        &&& entries[i].1 != JsonView::Null
    } by {
        if i < named.len() {
            assert(entries[i] == named[i]);
        } else {
            assert(entries[i] == object.rest[i - named.len()]);
        }
    }
}

// ---------------------------------------------------------------------------
// Executable readers and writers
// ---------------------------------------------------------------------------
/// Once a property cannot be read, reading further properties changes
/// nothing of the error.
pub proof fn lemma_decoded_error(json: JsonView, n: nat, m: nat)
    requires
        n <= m <= PROPERTY_COUNT,
        decoded(json, n) is Err,
    ensures
        decoded(json, m) == decoded(json, n),
    decreases m,
{
    if n < m {
        lemma_decoded_error(json, n, (m - 1) as nat);
    }
}

/// The entries whose key names no property, in order.
fn collect_rest(entries: &Vec<(String, Json)>) -> (r: Vec<(String, Json)>)
    ensures
        entries_view(r@) == residual(entries_view(entries@)),
{
    let mut rest: Vec<(String, Json)> = Vec::new();
    let mut i: usize = 0;
    proof {
        lemma_entries_view(entries@);
        lemma_entries_view(rest@);
        assert(entries_view(entries@).take(0) =~= Seq::empty());
        assert(entries_view(rest@) =~= Seq::empty());
    }
    while i < entries.len()
        invariant
            i <= entries.len(),
            entries_view(entries@).len() == entries@.len(),
            forall|k: int|
                0 <= k < entries@.len() ==> #[trigger] entries_view(entries@)[k] == (
                    entries@[k].0@,
                    entries@[k].1@,
                ),
            entries_view(rest@) == residual(entries_view(entries@).take(i as int)),
        decreases entries.len() - i,
    {
        let ghost before = entries_view(rest@);
        let ghost views = entries_view(entries@);
        proof {
            assert(views.take(i + 1).drop_last() =~= views.take(i as int));
            assert(views.take(i + 1).last() == views[i as int]);
            lemma_entries_view(rest@);
            lemma_position(before, views[i as int].0);
        }
        let key = entries[i].0.as_str();
        let residual = Property::from_name(key).is_none() && find(&rest, key).is_none();
        if residual {
            rest.push((entries[i].0.clone(), entries[i].1.clone()));
            proof {
                lemma_entries_view(rest@);
                assert(entries_view(rest@) =~= before.push(views[i as int]));
            }
        }
        i = i + 1;
    }
    proof {
        assert(entries_view(entries@).take(entries@.len() as int) =~= entries_view(entries@));
    }
    rest
}

impl Property {
    /// The error that an unreadable value of this property gives.
    pub fn error(self) -> (r: Error)
        ensures
            r == error_of(self),
    {
        match self {
            Property::SchemaContext => Error::InvalidContext,
            Property::Type => Error::UnknownType,
            _ => Error::InvalidProperty(self),
        }
    }
}

impl Default for Object {
    /// The object of type `Object` with the ActivityStreams context and no
    /// other property.
    fn default() -> (r: Object)
        ensures
            r@ == blank(Seq::empty()),
    {
        let object = Object {
            schema_context: ActivityStreamsContext::default(),
            type_: ActivityStreamsType::Object,
            id: None,
            actor: NonFunctional::Absent,
            attachment: NonFunctional::Absent,
            attributed_to: NonFunctional::Absent,
            audience: NonFunctional::Absent,
            bcc: NonFunctional::Absent,
            bto: NonFunctional::Absent,
            cc: NonFunctional::Absent,
            context: NonFunctional::Absent,
            current: None,
            first: None,
            generator: NonFunctional::Absent,
            icon: NonFunctional::Absent,
            image: NonFunctional::Absent,
            in_reply_to: NonFunctional::Absent,
            instrument: NonFunctional::Absent,
            last: None,
            location: NonFunctional::Absent,
            items: NonFunctional::Absent,
            ordered_items: NonFunctional::Absent,
            one_of: NonFunctional::Absent,
            any_of: NonFunctional::Absent,
            closed: None,
            origin: NonFunctional::Absent,
            next: None,
            object: NonFunctional::Absent,
            prev: None,
            preview: NonFunctional::Absent,
            result: NonFunctional::Absent,
            replies: NonFunctional::Absent,
            tag: NonFunctional::Absent,
            target: NonFunctional::Absent,
            to: NonFunctional::Absent,
            url: NonFunctional::Absent,
            accuracy: None,
            altitude: None,
            content: NonFunctional::Absent,
            name: NonFunctional::Absent,
            duration: None,
            height: None,
            href: None,
            hreflang: None,
            part_of: None,
            latitude: None,
            longitude: None,
            media_type: None,
            end_time: None,
            published: None,
            start_time: None,
            radius: None,
            rel: NonFunctional::Absent,
            start_index: None,
            summary: NonFunctional::Absent,
            total_items: None,
            units: None,
            updated: None,
            width: None,
            subject: None,
            relationship: NonFunctional::Absent,
            describes: None,
            former_type: NonFunctional::Absent,
            deleted: None,
            source: None,
            inbox: None,
            outbox: None,
            following: None,
            followers: None,
            liked: None,
            streams: NonFunctional::Absent,
            endpoints: None,
            preferred_username: None,
            rest: Vec::new(),
        };
        proof {
            lemma_entries_view(object.rest@);
            assert(entries_view(object.rest@) =~= Seq::empty());
        }
        object
    }
}

/// Whether one of the first `n` entries stands under `key`.
fn key_before(entries: &Vec<(String, Json)>, n: usize, key: &str) -> (r: bool)
    requires
        n <= entries@.len(),
    ensures
        r == exists|k: int| 0 <= k < n && (#[trigger] entries@[k]).0@ == key@,
{
    let mut i: usize = 0;
    while i < n
        invariant
            i <= n <= entries@.len(),
            forall|k: int| 0 <= k < i ==> (#[trigger] entries@[k]).0@ != key@,
        decreases n - i,
    {
        if same_text(entries[i].0.as_str(), key) {
            return true;
        }
        i = i + 1;
    }
    false
}

/// Whether the entries can be the residual entries of an object: whether no
/// key names a property and no key occurs twice.
pub fn rest_is_canonical(rest: &Vec<(String, Json)>) -> (r: bool)
    ensures
        r == rest_wf(entries_view(rest@)),
{
    let ghost views = entries_view(rest@);
    proof {
        lemma_entries_view(rest@);
    }
    let mut i: usize = 0;
    while i < rest.len()
        invariant
            i <= rest.len(),
            views == entries_view(rest@),
            views.len() == rest@.len(),
            forall|k: int| 0 <= k < rest@.len() ==> #[trigger] views[k] == (rest@[k].0@, rest@[k].1@),
            forall|k: int| 0 <= k < i ==> Property::from_name_spec((#[trigger] views[k]).0) is None,
            forall|a: int, b: int| 0 <= a < b < i ==> (#[trigger] views[a]).0 != (#[trigger] views[b]).0,
        decreases rest.len() - i,
    {
        if Property::from_name(rest[i].0.as_str()).is_some() {
            assert(Property::from_name_spec(views[i as int].0) is Some);
            return false;
        }
        if key_before(rest, i, rest[i].0.as_str()) {
            proof {
                let k = choose|k: int| 0 <= k < i && (#[trigger] rest@[k]).0@ == rest@[i as int].0@;
                assert(views[k].0 == views[i as int].0);
            }
            return false;
        }
        proof {
            assert forall|a: int, b: int| 0 <= a < b < i + 1 implies (#[trigger] views[a]).0 != (
            #[trigger] views[b]).0 by {
                if b == i {
                    assert(rest@[a].0@ != rest@[i as int].0@);
                }
            }
        }
        i = i + 1;
    }
    true
}

impl Object {
    /// Whether a property holds a canonical value.
    fn property_is_canonical(&self, property: Property) -> (r: bool)
        ensures
            r == property_wf(self@, property),
        decreases self, 0nat,
    {
        match property {
            Property::SchemaContext => self.schema_context.is_canonical(),
            Property::Type => true,
            Property::Id => address_is_canonical(&self.id),
            Property::Actor => links_are_canonical(&self.actor),
            Property::Attachment => links_are_canonical(&self.attachment),
            Property::AttributedTo => links_are_canonical(&self.attributed_to),
            Property::Audience => links_are_canonical(&self.audience),
            Property::Bcc => links_are_canonical(&self.bcc),
            Property::Bto => links_are_canonical(&self.bto),
            Property::Cc => links_are_canonical(&self.cc),
            Property::Context => links_are_canonical(&self.context),
            Property::Current => link_option_is_canonical(&self.current),
            Property::First => link_option_is_canonical(&self.first),
            Property::Generator => links_are_canonical(&self.generator),
            Property::Icon => links_are_canonical(&self.icon),
            Property::Image => links_are_canonical(&self.image),
            Property::InReplyTo => links_are_canonical(&self.in_reply_to),
            Property::Instrument => links_are_canonical(&self.instrument),
            Property::Last => link_option_is_canonical(&self.last),
            Property::Location => links_are_canonical(&self.location),
            Property::Items => links_are_canonical(&self.items),
            Property::OrderedItems => links_are_canonical(&self.ordered_items),
            Property::OneOf => links_are_canonical(&self.one_of),
            Property::AnyOf => links_are_canonical(&self.any_of),
            Property::Closed => closed_is_canonical(&self.closed),
            Property::Origin => links_are_canonical(&self.origin),
            Property::Next => link_option_is_canonical(&self.next),
            Property::Object => links_are_canonical(&self.object),
            Property::Prev => link_option_is_canonical(&self.prev),
            Property::Preview => links_are_canonical(&self.preview),
            Property::Result => links_are_canonical(&self.result),
            Property::Replies => links_are_canonical(&self.replies),
            Property::Tag => links_are_canonical(&self.tag),
            Property::Target => links_are_canonical(&self.target),
            Property::To => links_are_canonical(&self.to),
            Property::Url => links_are_canonical(&self.url),
            Property::Accuracy => true,
            Property::Altitude => true,
            Property::Content => texts_are_canonical(&self.content),
            Property::Name => texts_are_canonical(&self.name),
            Property::Duration => true,
            Property::Height => true,
            Property::Href => address_is_canonical(&self.href),
            Property::Hreflang => true,
            Property::PartOf => link_option_is_canonical(&self.part_of),
            Property::Latitude => true,
            Property::Longitude => true,
            Property::MediaType => true,
            Property::EndTime => true,
            Property::Published => true,
            Property::StartTime => true,
            Property::Radius => true,
            Property::Rel => relations_are_canonical(&self.rel),
            Property::StartIndex => true,
            Property::Summary => texts_are_canonical(&self.summary),
            Property::TotalItems => true,
            Property::Units => units_are_canonical(&self.units),
            Property::Updated => true,
            Property::Width => true,
            Property::Subject => link_option_is_canonical(&self.subject),
            Property::Relationship => links_are_canonical(&self.relationship),
            Property::Describes => embedded_is_canonical(&self.describes),
            Property::FormerType => links_are_canonical(&self.former_type),
            Property::Deleted => true,
            Property::Source => embedded_is_canonical(&self.source),
            Property::Inbox => link_option_is_canonical(&self.inbox),
            Property::Outbox => link_option_is_canonical(&self.outbox),
            Property::Following => link_option_is_canonical(&self.following),
            Property::Followers => link_option_is_canonical(&self.followers),
            Property::Liked => link_option_is_canonical(&self.liked),
            Property::Streams => links_are_canonical(&self.streams),
            Property::Endpoints => endpoints_are_canonical(&self.endpoints),
            Property::PreferredUsername => true,
        }
    }

    /// Whether this object is canonical: whether reading what it is written
    /// as gives it back. Every URL in it is parsed once more for the test.
    pub fn is_canonical(&self) -> (r: bool)
        ensures
            r == object_wf(self@),
        decreases self, 1nat,
    {
        let mut i: usize = 0;
        while i < PROPERTY_COUNT
            invariant
                i <= PROPERTY_COUNT,
                properties_wf_upto(self@, i as nat),
            decreases PROPERTY_COUNT - i,
        {
            if !self.property_is_canonical(Property::at(i)) {
                proof {
                    if properties_wf_upto(self@, PROPERTY_COUNT as nat) {
                        lemma_properties_wf(self@, PROPERTY_COUNT as nat, Property::at_spec(i as nat));
                    }
                }
                return false;
            }
            i = i + 1;
        }
        rest_is_canonical(&self.rest)
    }

    /// The tree that a property is written as; `None` where the property
    /// holds nothing.
    fn property_to_json(&self, property: Property) -> (r: Option<Json>)
        ensures
            same_json(r, property_json(self@, property)),
        decreases self, 0nat,
    {
        match property {
            Property::SchemaContext => Some(self.schema_context.to_json()),
            Property::Type => type_to_json(self.type_),
            Property::Id => address_to_json(&self.id),
            Property::Actor => links_to_json(&self.actor),
            Property::Attachment => links_to_json(&self.attachment),
            Property::AttributedTo => links_to_json(&self.attributed_to),
            Property::Audience => links_to_json(&self.audience),
            Property::Bcc => links_to_json(&self.bcc),
            Property::Bto => links_to_json(&self.bto),
            Property::Cc => links_to_json(&self.cc),
            Property::Context => links_to_json(&self.context),
            Property::Current => link_option_to_json(&self.current),
            Property::First => link_option_to_json(&self.first),
            Property::Generator => links_to_json(&self.generator),
            Property::Icon => links_to_json(&self.icon),
            Property::Image => links_to_json(&self.image),
            Property::InReplyTo => links_to_json(&self.in_reply_to),
            Property::Instrument => links_to_json(&self.instrument),
            Property::Last => link_option_to_json(&self.last),
            Property::Location => links_to_json(&self.location),
            Property::Items => links_to_json(&self.items),
            Property::OrderedItems => links_to_json(&self.ordered_items),
            Property::OneOf => links_to_json(&self.one_of),
            Property::AnyOf => links_to_json(&self.any_of),
            Property::Closed => closed_to_json(&self.closed),
            Property::Origin => links_to_json(&self.origin),
            Property::Next => link_option_to_json(&self.next),
            Property::Object => links_to_json(&self.object),
            Property::Prev => link_option_to_json(&self.prev),
            Property::Preview => links_to_json(&self.preview),
            Property::Result => links_to_json(&self.result),
            Property::Replies => links_to_json(&self.replies),
            Property::Tag => links_to_json(&self.tag),
            Property::Target => links_to_json(&self.target),
            Property::To => links_to_json(&self.to),
            Property::Url => links_to_json(&self.url),
            Property::Accuracy => measure_to_json(&self.accuracy),
            Property::Altitude => measure_to_json(&self.altitude),
            Property::Content => texts_to_json(&self.content),
            Property::Name => texts_to_json(&self.name),
            Property::Duration => text_to_json(&self.duration),
            Property::Height => count_to_json(&self.height),
            Property::Href => address_to_json(&self.href),
            Property::Hreflang => text_to_json(&self.hreflang),
            Property::PartOf => link_option_to_json(&self.part_of),
            Property::Latitude => measure_to_json(&self.latitude),
            Property::Longitude => measure_to_json(&self.longitude),
            Property::MediaType => text_to_json(&self.media_type),
            Property::EndTime => text_to_json(&self.end_time),
            Property::Published => text_to_json(&self.published),
            Property::StartTime => text_to_json(&self.start_time),
            Property::Radius => measure_to_json(&self.radius),
            Property::Rel => relations_to_json(&self.rel),
            Property::StartIndex => count_to_json(&self.start_index),
            Property::Summary => texts_to_json(&self.summary),
            Property::TotalItems => count_to_json(&self.total_items),
            Property::Units => units_to_json(&self.units),
            Property::Updated => text_to_json(&self.updated),
            Property::Width => count_to_json(&self.width),
            Property::Subject => link_option_to_json(&self.subject),
            Property::Relationship => links_to_json(&self.relationship),
            Property::Describes => embedded_to_json(&self.describes),
            Property::FormerType => links_to_json(&self.former_type),
            Property::Deleted => text_to_json(&self.deleted),
            Property::Source => embedded_to_json(&self.source),
            Property::Inbox => link_option_to_json(&self.inbox),
            Property::Outbox => link_option_to_json(&self.outbox),
            Property::Following => link_option_to_json(&self.following),
            Property::Followers => link_option_to_json(&self.followers),
            Property::Liked => link_option_to_json(&self.liked),
            Property::Streams => links_to_json(&self.streams),
            Property::Endpoints => endpoints_to_json(&self.endpoints),
            Property::PreferredUsername => text_to_json(&self.preferred_username),
        }
    }

    /// Replaces a property by what a tree is read as. Where the tree has
    /// none of the shapes of the property, the object stays as it is and
    /// the result is `false`.
    fn assign(&mut self, property: Property, json: &Json) -> (ok: bool)
        ensures
            match decode_property(old(self)@, property, json@) {
                Some(read) => ok && final(self)@ == read,
                None => !ok && final(self)@ == old(self)@,
            },
        decreases json, 1002nat,
    {
        match property {
            Property::SchemaContext => match ActivityStreamsContext::from_json(json) {
                Some(value) => {
                    self.schema_context = value;
                    true
                },
                None => false,
            },
            Property::Type => match type_from_json(json) {
                Some(value) => {
                    self.type_ = value;
                    true
                },
                None => false,
            },
            Property::Id => match address_from_json(json) {
                Some(value) => {
                    self.id = value;
                    true
                },
                None => false,
            },
            Property::Actor => match links_from_json(json) {
                Some(value) => {
                    self.actor = value;
                    true
                },
                None => false,
            },
            Property::Attachment => match links_from_json(json) {
                Some(value) => {
                    self.attachment = value;
                    true
                },
                None => false,
            },
            Property::AttributedTo => match links_from_json(json) {
                Some(value) => {
                    self.attributed_to = value;
                    true
                },
                None => false,
            },
            Property::Audience => match links_from_json(json) {
                Some(value) => {
                    self.audience = value;
                    true
                },
                None => false,
            },
            Property::Bcc => match links_from_json(json) {
                Some(value) => {
                    self.bcc = value;
                    true
                },
                None => false,
            },
            Property::Bto => match links_from_json(json) {
                Some(value) => {
                    self.bto = value;
                    true
                },
                None => false,
            },
            Property::Cc => match links_from_json(json) {
                Some(value) => {
                    self.cc = value;
                    true
                },
                None => false,
            },
            Property::Context => match links_from_json(json) {
                Some(value) => {
                    self.context = value;
                    true
                },
                None => false,
            },
            Property::Current => match link_option_from_json(json) {
                Some(value) => {
                    self.current = value;
                    true
                },
                None => false,
            },
            Property::First => match link_option_from_json(json) {
                Some(value) => {
                    self.first = value;
                    true
                },
                None => false,
            },
            Property::Generator => match links_from_json(json) {
                Some(value) => {
                    self.generator = value;
                    true
                },
                None => false,
            },
            Property::Icon => match links_from_json(json) {
                Some(value) => {
                    self.icon = value;
                    true
                },
                None => false,
            },
            Property::Image => match links_from_json(json) {
                Some(value) => {
                    self.image = value;
                    true
                },
                None => false,
            },
            Property::InReplyTo => match links_from_json(json) {
                Some(value) => {
                    self.in_reply_to = value;
                    true
                },
                None => false,
            },
            Property::Instrument => match links_from_json(json) {
                Some(value) => {
                    self.instrument = value;
                    true
                },
                None => false,
            },
            Property::Last => match link_option_from_json(json) {
                Some(value) => {
                    self.last = value;
                    true
                },
                None => false,
            },
            Property::Location => match links_from_json(json) {
                Some(value) => {
                    self.location = value;
                    true
                },
                None => false,
            },
            Property::Items => match links_from_json(json) {
                Some(value) => {
                    self.items = value;
                    true
                },
                None => false,
            },
            Property::OrderedItems => match links_from_json(json) {
                Some(value) => {
                    self.ordered_items = value;
                    true
                },
                None => false,
            },
            Property::OneOf => match links_from_json(json) {
                Some(value) => {
                    self.one_of = value;
                    true
                },
                None => false,
            },
            Property::AnyOf => match links_from_json(json) {
                Some(value) => {
                    self.any_of = value;
                    true
                },
                None => false,
            },
            Property::Closed => match closed_from_json(json) {
                Some(value) => {
                    self.closed = value;
                    true
                },
                None => false,
            },
            Property::Origin => match links_from_json(json) {
                Some(value) => {
                    self.origin = value;
                    true
                },
                None => false,
            },
            Property::Next => match link_option_from_json(json) {
                Some(value) => {
                    self.next = value;
                    true
                },
                None => false,
            },
            Property::Object => match links_from_json(json) {
                Some(value) => {
                    self.object = value;
                    true
                },
                None => false,
            },
            Property::Prev => match link_option_from_json(json) {
                Some(value) => {
                    self.prev = value;
                    true
                },
                None => false,
            },
            Property::Preview => match links_from_json(json) {
                Some(value) => {
                    self.preview = value;
                    true
                },
                None => false,
            },
            Property::Result => match links_from_json(json) {
                Some(value) => {
                    self.result = value;
                    true
                },
                None => false,
            },
            Property::Replies => match links_from_json(json) {
                Some(value) => {
                    self.replies = value;
                    true
                },
                None => false,
            },
            Property::Tag => match links_from_json(json) {
                Some(value) => {
                    self.tag = value;
                    true
                },
                None => false,
            },
            Property::Target => match links_from_json(json) {
                Some(value) => {
                    self.target = value;
                    true
                },
                None => false,
            },
            Property::To => match links_from_json(json) {
                Some(value) => {
                    self.to = value;
                    true
                },
                None => false,
            },
            Property::Url => match links_from_json(json) {
                Some(value) => {
                    self.url = value;
                    true
                },
                None => false,
            },
            Property::Accuracy => match measure_from_json(json) {
                Some(value) => {
                    self.accuracy = value;
                    true
                },
                None => false,
            },
            Property::Altitude => match measure_from_json(json) {
                Some(value) => {
                    self.altitude = value;
                    true
                },
                None => false,
            },
            Property::Content => match texts_from_json(json) {
                Some(value) => {
                    self.content = value;
                    true
                },
                None => false,
            },
            Property::Name => match texts_from_json(json) {
                Some(value) => {
                    self.name = value;
                    true
                },
                None => false,
            },
            Property::Duration => match text_from_json(json) {
                Some(value) => {
                    self.duration = value;
                    true
                },
                None => false,
            },
            Property::Height => match count_from_json(json) {
                Some(value) => {
                    self.height = value;
                    true
                },
                None => false,
            },
            Property::Href => match address_from_json(json) {
                Some(value) => {
                    self.href = value;
                    true
                },
                None => false,
            },
            Property::Hreflang => match text_from_json(json) {
                Some(value) => {
                    self.hreflang = value;
                    true
                },
                None => false,
            },
            Property::PartOf => match link_option_from_json(json) {
                Some(value) => {
                    self.part_of = value;
                    true
                },
                None => false,
            },
            Property::Latitude => match measure_from_json(json) {
                Some(value) => {
                    self.latitude = value;
                    true
                },
                None => false,
            },
            Property::Longitude => match measure_from_json(json) {
                Some(value) => {
                    self.longitude = value;
                    true
                },
                None => false,
            },
            Property::MediaType => match text_from_json(json) {
                Some(value) => {
                    self.media_type = value;
                    true
                },
                None => false,
            },
            Property::EndTime => match text_from_json(json) {
                Some(value) => {
                    self.end_time = value;
                    true
                },
                None => false,
            },
            Property::Published => match text_from_json(json) {
                Some(value) => {
                    self.published = value;
                    true
                },
                None => false,
            },
            Property::StartTime => match text_from_json(json) {
                Some(value) => {
                    self.start_time = value;
                    true
                },
                None => false,
            },
            Property::Radius => match measure_from_json(json) {
                Some(value) => {
                    self.radius = value;
                    true
                },
                None => false,
            },
            Property::Rel => match relations_from_json(json) {
                Some(value) => {
                    self.rel = value;
                    true
                },
                None => false,
            },
            Property::StartIndex => match count_from_json(json) {
                Some(value) => {
                    self.start_index = value;
                    true
                },
                None => false,
            },
            Property::Summary => match texts_from_json(json) {
                Some(value) => {
                    self.summary = value;
                    true
                },
                None => false,
            },
            Property::TotalItems => match count_from_json(json) {
                Some(value) => {
                    self.total_items = value;
                    true
                },
                None => false,
            },
            Property::Units => match units_from_json(json) {
                Some(value) => {
                    self.units = value;
                    true
                },
                None => false,
            },
            Property::Updated => match text_from_json(json) {
                Some(value) => {
                    self.updated = value;
                    true
                },
                None => false,
            },
            Property::Width => match count_from_json(json) {
                Some(value) => {
                    self.width = value;
                    true
                },
                None => false,
            },
            Property::Subject => match link_option_from_json(json) {
                Some(value) => {
                    self.subject = value;
                    true
                },
                None => false,
            },
            Property::Relationship => match links_from_json(json) {
                Some(value) => {
                    self.relationship = value;
                    true
                },
                None => false,
            },
            Property::Describes => match embedded_from_json(json) {
                Some(value) => {
                    self.describes = value;
                    true
                },
                None => false,
            },
            Property::FormerType => match links_from_json(json) {
                Some(value) => {
                    self.former_type = value;
                    true
                },
                None => false,
            },
            Property::Deleted => match text_from_json(json) {
                Some(value) => {
                    self.deleted = value;
                    true
                },
                None => false,
            },
            Property::Source => match embedded_from_json(json) {
                Some(value) => {
                    self.source = value;
                    true
                },
                None => false,
            },
            Property::Inbox => match link_option_from_json(json) {
                Some(value) => {
                    self.inbox = value;
                    true
                },
                None => false,
            },
            Property::Outbox => match link_option_from_json(json) {
                Some(value) => {
                    self.outbox = value;
                    true
                },
                None => false,
            },
            Property::Following => match link_option_from_json(json) {
                Some(value) => {
                    self.following = value;
                    true
                },
                None => false,
            },
            Property::Followers => match link_option_from_json(json) {
                Some(value) => {
                    self.followers = value;
                    true
                },
                None => false,
            },
            Property::Liked => match link_option_from_json(json) {
                Some(value) => {
                    self.liked = value;
                    true
                },
                None => false,
            },
            Property::Streams => match links_from_json(json) {
                Some(value) => {
                    self.streams = value;
                    true
                },
                None => false,
            },
            Property::Endpoints => match endpoints_from_json(json) {
                Some(value) => {
                    self.endpoints = value;
                    true
                },
                None => false,
            },
            Property::PreferredUsername => match text_from_json(json) {
                Some(value) => {
                    self.preferred_username = value;
                    true
                },
                None => false,
            },
        }
    }

    /// The tree that this object is written as.
    pub fn to_json(&self) -> (r: Json)
        ensures
            r@ == object_json(self@),
        decreases self, 1nat,
    {
        let mut entries: Vec<(String, Json)> = Vec::new();
        let mut i: usize = 0;
        proof {
            lemma_entries_view(entries@);
            assert(entries_view(entries@) =~= Seq::empty());
        }
        while i < PROPERTY_COUNT
            invariant
                i <= PROPERTY_COUNT,
                entries_view(entries@) == named_entries(self@, i as nat),
            decreases PROPERTY_COUNT - i,
        {
            let property = Property::at(i);
            let ghost before = entries_view(entries@);
            proof {
                lemma_entries_view(entries@);
            }
            match self.property_to_json(property) {
                Some(json) => {
                    entries.push((property.name().to_owned(), json));
                    proof {
                        lemma_entries_view(entries@);
                        assert(entries_view(entries@) =~= before + property_entry(self@, property));
                    }
                },
                None => {
                    assert(before =~= before + property_entry(self@, property));
                },
            }
            i = i + 1;
        }
        let mut k: usize = 0;
        proof {
            assert(entries_view(self.rest@).take(0) =~= Seq::empty());
            assert(entries_view(entries@) =~= entries_view(entries@) + entries_view(self.rest@).take(0));
            lemma_entries_view(self.rest@);
        }
        while k < self.rest.len()
            invariant
                k <= self.rest.len(),
                entries_view(self.rest@).len() == self.rest@.len(),
                forall|j: int|
                    0 <= j < self.rest@.len() ==> #[trigger] entries_view(self.rest@)[j] == (
                        self.rest@[j].0@,
                        self.rest@[j].1@,
                    ),
                entries_view(entries@) == named_entries(self@, PROPERTY_COUNT as nat) + entries_view(
                    self.rest@,
                ).take(k as int),
            decreases self.rest.len() - k,
        {
            let ghost before = entries_view(entries@);
            proof {
                lemma_entries_view(entries@);
            }
            entries.push((self.rest[k].0.clone(), self.rest[k].1.clone()));
            proof {
                lemma_entries_view(entries@);
                let rest = entries_view(self.rest@);
                assert(rest.take(k + 1) =~= rest.take(k as int).push(rest[k as int]));
                assert(entries_view(entries@) =~= before.push(rest[k as int]));
                assert(before.push(rest[k as int]) =~= named_entries(self@, PROPERTY_COUNT as nat)
                    + rest.take(k + 1));
            }
            k = k + 1;
        }
        proof {
            assert(entries_view(self.rest@).take(self.rest@.len() as int) =~= entries_view(self.rest@));
        }
        Json::Object(entries)
    }

    /// The object that a tree is read as, or the error of the first
    /// property, in their order, whose value cannot be read.
    pub fn from_json(json: &Json) -> (r: Result<Object, Error>)
        ensures
            match object_of(json@) {
                Ok(object) => r matches Ok(read) && read@ == object,
                Err(error) => r matches Err(found) && found == error,
            },
        decreases json, PROPERTY_COUNT + 2,
    {
        let entries = match json {
            Json::Object(entries) => entries,
            _ => {
                return Err(Error::NotAnObject);
            },
        };
        let mut object = Object::default();
        object.rest = collect_rest(entries);
        let mut i: usize = 0;
        while i < PROPERTY_COUNT
            invariant
                i <= PROPERTY_COUNT,
                json is Object,
                json->Object_0 == *entries,
                decoded(json@, i as nat) == Ok::<ObjectView, Error>(object@),
            decreases PROPERTY_COUNT - i,
        {
            let property = Property::at(i);
            proof {
                lemma_position(entries_view(entries@), property.name_spec());
            }
            match find(entries, property.name()) {
                Some(value) => {
                    if !object.assign(property, value) {
                        proof {
                            lemma_decoded_error(json@, (i + 1) as nat, PROPERTY_COUNT as nat);
                        }
                        return Err(property.error());
                    }
                },
                None => {},
            }
            i = i + 1;
        }
        Ok(object)
    }
}

} // verus!
