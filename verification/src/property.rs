//! The named properties of an object: their order, their keys in a document,
//! and the names under which they are selected for resolution.

use crate::error::Error;
use crate::text::outline;
use crate::text::same_text;
use crate::text::snake_case;
use crate::text::to_snake_case;
use vstd::prelude::*;

verus! {

/// How many named properties an object has.
pub const PROPERTY_COUNT: usize = 73;

/// The named properties of an object, in the order in which a document
/// lists them.
#[derive(Debug, Clone, Copy, PartialEq, Eq, Structural)]
pub enum Property {
    SchemaContext,
    Type,
    Id,
    Actor,
    Attachment,
    AttributedTo,
    Audience,
    Bcc,
    Bto,
    Cc,
    Context,
    Current,
    First,
    Generator,
    Icon,
    Image,
    InReplyTo,
    Instrument,
    Last,
    Location,
    Items,
    OrderedItems,
    OneOf,
    AnyOf,
    Closed,
    Origin,
    Next,
    Object,
    Prev,
    Preview,
    Result,
    Replies,
    Tag,
    Target,
    To,
    Url,
    Accuracy,
    Altitude,
    Content,
    Name,
    Duration,
    Height,
    Href,
    Hreflang,
    PartOf,
    Latitude,
    Longitude,
    MediaType,
    EndTime,
    Published,
    StartTime,
    Radius,
    Rel,
    StartIndex,
    Summary,
    TotalItems,
    Units,
    Updated,
    Width,
    Subject,
    Relationship,
    Describes,
    FormerType,
    Deleted,
    Source,
    Inbox,
    Outbox,
    Following,
    Followers,
    Liked,
    Streams,
    Endpoints,
    PreferredUsername,
}

impl Property {
    /// The place of this property in the order of the properties.
    pub open spec fn index_spec(self) -> nat {
        match self {
            Property::SchemaContext => 0,
            Property::Type => 1,
            Property::Id => 2,
            Property::Actor => 3,
            Property::Attachment => 4,
            Property::AttributedTo => 5,
            Property::Audience => 6,
            Property::Bcc => 7,
            Property::Bto => 8,
            Property::Cc => 9,
            Property::Context => 10,
            Property::Current => 11,
            Property::First => 12,
            Property::Generator => 13,
            Property::Icon => 14,
            Property::Image => 15,
            Property::InReplyTo => 16,
            Property::Instrument => 17,
            Property::Last => 18,
            Property::Location => 19,
            Property::Items => 20,
            Property::OrderedItems => 21,
            Property::OneOf => 22,
            Property::AnyOf => 23,
            Property::Closed => 24,
            Property::Origin => 25,
            Property::Next => 26,
            Property::Object => 27,
            Property::Prev => 28,
            Property::Preview => 29,
            Property::Result => 30,
            Property::Replies => 31,
            Property::Tag => 32,
            Property::Target => 33,
            Property::To => 34,
            Property::Url => 35,
            Property::Accuracy => 36,
            Property::Altitude => 37,
            Property::Content => 38,
            Property::Name => 39,
            Property::Duration => 40,
            Property::Height => 41,
            Property::Href => 42,
            Property::Hreflang => 43,
            Property::PartOf => 44,
            Property::Latitude => 45,
            Property::Longitude => 46,
            Property::MediaType => 47,
            Property::EndTime => 48,
            Property::Published => 49,
            Property::StartTime => 50,
            Property::Radius => 51,
            Property::Rel => 52,
            Property::StartIndex => 53,
            Property::Summary => 54,
            Property::TotalItems => 55,
            Property::Units => 56,
            Property::Updated => 57,
            Property::Width => 58,
            Property::Subject => 59,
            Property::Relationship => 60,
            Property::Describes => 61,
            Property::FormerType => 62,
            Property::Deleted => 63,
            Property::Source => 64,
            Property::Inbox => 65,
            Property::Outbox => 66,
            Property::Following => 67,
            Property::Followers => 68,
            Property::Liked => 69,
            Property::Streams => 70,
            Property::Endpoints => 71,
            Property::PreferredUsername => 72,
        }
    }

    /// The property at a place; the last one for any place beyond it.
    pub open spec fn at_spec(place: nat) -> Property {
        if place == 0 {
            Property::SchemaContext
        } else if place == 1 {
            Property::Type
        } else if place == 2 {
            Property::Id
        } else if place == 3 {
            Property::Actor
        } else if place == 4 {
            Property::Attachment
        } else if place == 5 {
            Property::AttributedTo
        } else if place == 6 {
            Property::Audience
        } else if place == 7 {
            Property::Bcc
        } else if place == 8 {
            Property::Bto
        } else if place == 9 {
            Property::Cc
        } else if place == 10 {
            Property::Context
        } else if place == 11 {
            Property::Current
        } else if place == 12 {
            Property::First
        } else if place == 13 {
            Property::Generator
        } else if place == 14 {
            Property::Icon
        } else if place == 15 {
            Property::Image
        } else if place == 16 {
            Property::InReplyTo
        } else if place == 17 {
            Property::Instrument
        } else if place == 18 {
            Property::Last
        } else if place == 19 {
            Property::Location
        } else if place == 20 {
            Property::Items
        } else if place == 21 {
            Property::OrderedItems
        } else if place == 22 {
            Property::OneOf
        } else if place == 23 {
            Property::AnyOf
        } else if place == 24 {
            Property::Closed
        } else if place == 25 {
            Property::Origin
        } else if place == 26 {
            Property::Next
        } else if place == 27 {
            Property::Object
        } else if place == 28 {
            Property::Prev
        } else if place == 29 {
            Property::Preview
        } else if place == 30 {
            Property::Result
        } else if place == 31 {
            Property::Replies
        } else if place == 32 {
            Property::Tag
        } else if place == 33 {
            Property::Target
        } else if place == 34 {
            Property::To
        } else if place == 35 {
            Property::Url
        } else if place == 36 {
            Property::Accuracy
        } else if place == 37 {
            Property::Altitude
        } else if place == 38 {
            Property::Content
        } else if place == 39 {
            Property::Name
        } else if place == 40 {
            Property::Duration
        } else if place == 41 {
            Property::Height
        } else if place == 42 {
            Property::Href
        } else if place == 43 {
            Property::Hreflang
        } else if place == 44 {
            Property::PartOf
        } else if place == 45 {
            Property::Latitude
        } else if place == 46 {
            Property::Longitude
        } else if place == 47 {
            Property::MediaType
        } else if place == 48 {
            Property::EndTime
        } else if place == 49 {
            Property::Published
        } else if place == 50 {
            Property::StartTime
        } else if place == 51 {
            Property::Radius
        } else if place == 52 {
            Property::Rel
        } else if place == 53 {
            Property::StartIndex
        } else if place == 54 {
            Property::Summary
        } else if place == 55 {
            Property::TotalItems
        } else if place == 56 {
            Property::Units
        } else if place == 57 {
            Property::Updated
        } else if place == 58 {
            Property::Width
        } else if place == 59 {
            Property::Subject
        } else if place == 60 {
            Property::Relationship
        } else if place == 61 {
            Property::Describes
        } else if place == 62 {
            Property::FormerType
        } else if place == 63 {
            Property::Deleted
        } else if place == 64 {
            Property::Source
        } else if place == 65 {
            Property::Inbox
        } else if place == 66 {
            Property::Outbox
        } else if place == 67 {
            Property::Following
        } else if place == 68 {
            Property::Followers
        } else if place == 69 {
            Property::Liked
        } else if place == 70 {
            Property::Streams
        } else if place == 71 {
            Property::Endpoints
        } else {
            Property::PreferredUsername
        }
    }

    /// The place of this property in the order of the properties.
    pub fn index(self) -> (r: usize)
        ensures
            r == self.index_spec(),
            r < PROPERTY_COUNT,
    {
        match self {
            Property::SchemaContext => 0,
            Property::Type => 1,
            Property::Id => 2,
            Property::Actor => 3,
            Property::Attachment => 4,
            Property::AttributedTo => 5,
            Property::Audience => 6,
            Property::Bcc => 7,
            Property::Bto => 8,
            Property::Cc => 9,
            Property::Context => 10,
            Property::Current => 11,
            Property::First => 12,
            Property::Generator => 13,
            Property::Icon => 14,
            Property::Image => 15,
            Property::InReplyTo => 16,
            Property::Instrument => 17,
            Property::Last => 18,
            Property::Location => 19,
            Property::Items => 20,
            Property::OrderedItems => 21,
            Property::OneOf => 22,
            Property::AnyOf => 23,
            Property::Closed => 24,
            Property::Origin => 25,
            Property::Next => 26,
            Property::Object => 27,
            Property::Prev => 28,
            Property::Preview => 29,
            Property::Result => 30,
            Property::Replies => 31,
            Property::Tag => 32,
            Property::Target => 33,
            Property::To => 34,
            Property::Url => 35,
            Property::Accuracy => 36,
            Property::Altitude => 37,
            Property::Content => 38,
            Property::Name => 39,
            Property::Duration => 40,
            Property::Height => 41,
            Property::Href => 42,
            Property::Hreflang => 43,
            Property::PartOf => 44,
            Property::Latitude => 45,
            Property::Longitude => 46,
            Property::MediaType => 47,
            Property::EndTime => 48,
            Property::Published => 49,
            Property::StartTime => 50,
            Property::Radius => 51,
            Property::Rel => 52,
            Property::StartIndex => 53,
            Property::Summary => 54,
            Property::TotalItems => 55,
            Property::Units => 56,
            Property::Updated => 57,
            Property::Width => 58,
            Property::Subject => 59,
            Property::Relationship => 60,
            Property::Describes => 61,
            Property::FormerType => 62,
            Property::Deleted => 63,
            Property::Source => 64,
            Property::Inbox => 65,
            Property::Outbox => 66,
            Property::Following => 67,
            Property::Followers => 68,
            Property::Liked => 69,
            Property::Streams => 70,
            Property::Endpoints => 71,
            Property::PreferredUsername => 72,
        }
    }

    /// The property at a place; the last one for any place beyond it.
    pub fn at(place: usize) -> (r: Property)
        ensures
            r == Property::at_spec(place as nat),
            place < PROPERTY_COUNT ==> r.index_spec() == place,
    {
        if place == 0 {
            Property::SchemaContext
        } else if place == 1 {
            Property::Type
        } else if place == 2 {
            Property::Id
        } else if place == 3 {
            Property::Actor
        } else if place == 4 {
            Property::Attachment
        } else if place == 5 {
            Property::AttributedTo
        } else if place == 6 {
            Property::Audience
        } else if place == 7 {
            Property::Bcc
        } else if place == 8 {
            Property::Bto
        } else if place == 9 {
            Property::Cc
        } else if place == 10 {
            Property::Context
        } else if place == 11 {
            Property::Current
        } else if place == 12 {
            Property::First
        } else if place == 13 {
            Property::Generator
        } else if place == 14 {
            Property::Icon
        } else if place == 15 {
            Property::Image
        } else if place == 16 {
            Property::InReplyTo
        } else if place == 17 {
            Property::Instrument
        } else if place == 18 {
            Property::Last
        } else if place == 19 {
            Property::Location
        } else if place == 20 {
            Property::Items
        } else if place == 21 {
            Property::OrderedItems
        } else if place == 22 {
            Property::OneOf
        } else if place == 23 {
            Property::AnyOf
        } else if place == 24 {
            Property::Closed
        } else if place == 25 {
            Property::Origin
        } else if place == 26 {
            Property::Next
        } else if place == 27 {
            Property::Object
        } else if place == 28 {
            Property::Prev
        } else if place == 29 {
            Property::Preview
        } else if place == 30 {
            Property::Result
        } else if place == 31 {
            Property::Replies
        } else if place == 32 {
            Property::Tag
        } else if place == 33 {
            Property::Target
        } else if place == 34 {
            Property::To
        } else if place == 35 {
            Property::Url
        } else if place == 36 {
            Property::Accuracy
        } else if place == 37 {
            Property::Altitude
        } else if place == 38 {
            Property::Content
        } else if place == 39 {
            Property::Name
        } else if place == 40 {
            Property::Duration
        } else if place == 41 {
            Property::Height
        } else if place == 42 {
            Property::Href
        } else if place == 43 {
            Property::Hreflang
        } else if place == 44 {
            Property::PartOf
        } else if place == 45 {
            Property::Latitude
        } else if place == 46 {
            Property::Longitude
        } else if place == 47 {
            Property::MediaType
        } else if place == 48 {
            Property::EndTime
        } else if place == 49 {
            Property::Published
        } else if place == 50 {
            Property::StartTime
        } else if place == 51 {
            Property::Radius
        } else if place == 52 {
            Property::Rel
        } else if place == 53 {
            Property::StartIndex
        } else if place == 54 {
            Property::Summary
        } else if place == 55 {
            Property::TotalItems
        } else if place == 56 {
            Property::Units
        } else if place == 57 {
            Property::Updated
        } else if place == 58 {
            Property::Width
        } else if place == 59 {
            Property::Subject
        } else if place == 60 {
            Property::Relationship
        } else if place == 61 {
            Property::Describes
        } else if place == 62 {
            Property::FormerType
        } else if place == 63 {
            Property::Deleted
        } else if place == 64 {
            Property::Source
        } else if place == 65 {
            Property::Inbox
        } else if place == 66 {
            Property::Outbox
        } else if place == 67 {
            Property::Following
        } else if place == 68 {
            Property::Followers
        } else if place == 69 {
            Property::Liked
        } else if place == 70 {
            Property::Streams
        } else if place == 71 {
            Property::Endpoints
        } else {
            Property::PreferredUsername
        }
    }

    /// Every property stands at its own place, and every place within the
    /// count holds the property of that place.
    pub proof fn lemma_places()
        ensures
            forall|p: Property| #[trigger] Property::at_spec(p.index_spec()) == p && p.index_spec() < PROPERTY_COUNT,
            forall|place: nat| place < PROPERTY_COUNT ==> (#[trigger] Property::at_spec(place)).index_spec() == place,
    {
    }

    /// The key under which a document holds this property.
    pub open spec fn name_spec(self) -> Seq<char> {
        match self {
            Property::SchemaContext => "@context"@,
            Property::Type => "type"@,
            Property::Id => "id"@,
            Property::Actor => "actor"@,
            Property::Attachment => "attachment"@,
            Property::AttributedTo => "attributedTo"@,
            Property::Audience => "audience"@,
            Property::Bcc => "bcc"@,
            Property::Bto => "bto"@,
            Property::Cc => "cc"@,
            Property::Context => "context"@,
            Property::Current => "current"@,
            Property::First => "first"@,
            Property::Generator => "generator"@,
            Property::Icon => "icon"@,
            Property::Image => "image"@,
            Property::InReplyTo => "inReplyTo"@,
            Property::Instrument => "instrument"@,
            Property::Last => "last"@,
            Property::Location => "location"@,
            Property::Items => "items"@,
            Property::OrderedItems => "orderedItems"@,
            Property::OneOf => "oneOf"@,
            Property::AnyOf => "anyOf"@,
            Property::Closed => "closed"@,
            Property::Origin => "origin"@,
            Property::Next => "next"@,
            Property::Object => "object"@,
            Property::Prev => "prev"@,
            Property::Preview => "preview"@,
            Property::Result => "result"@,
            Property::Replies => "replies"@,
            Property::Tag => "tag"@,
            Property::Target => "target"@,
            Property::To => "to"@,
            Property::Url => "url"@,
            Property::Accuracy => "accuracy"@,
            Property::Altitude => "altitude"@,
            Property::Content => "content"@,
            Property::Name => "name"@,
            Property::Duration => "duration"@,
            Property::Height => "height"@,
            Property::Href => "href"@,
            Property::Hreflang => "hreflang"@,
            Property::PartOf => "partOf"@,
            Property::Latitude => "latitude"@,
            Property::Longitude => "longitude"@,
            Property::MediaType => "mediaType"@,
            Property::EndTime => "endTime"@,
            Property::Published => "published"@,
            Property::StartTime => "startTime"@,
            Property::Radius => "radius"@,
            Property::Rel => "rel"@,
            Property::StartIndex => "startIndex"@,
            Property::Summary => "summary"@,
            Property::TotalItems => "totalItems"@,
            Property::Units => "units"@,
            Property::Updated => "updated"@,
            Property::Width => "width"@,
            Property::Subject => "subject"@,
            Property::Relationship => "relationship"@,
            Property::Describes => "describes"@,
            Property::FormerType => "formerType"@,
            Property::Deleted => "deleted"@,
            Property::Source => "source"@,
            Property::Inbox => "inbox"@,
            Property::Outbox => "outbox"@,
            Property::Following => "following"@,
            Property::Followers => "followers"@,
            Property::Liked => "liked"@,
            Property::Streams => "streams"@,
            Property::Endpoints => "endpoints"@,
            Property::PreferredUsername => "preferredUsername"@,
        }
    }

    /// The property that a key names, if any.
    pub open spec fn from_name_spec(name: Seq<char>) -> Option<Property> {
        if name == "@context"@ {
            Some(Property::SchemaContext)
        } else if name == "type"@ {
            Some(Property::Type)
        } else if name == "id"@ {
            Some(Property::Id)
        } else if name == "actor"@ {
            Some(Property::Actor)
        } else if name == "attachment"@ {
            Some(Property::Attachment)
        } else if name == "attributedTo"@ {
            Some(Property::AttributedTo)
        } else if name == "audience"@ {
            Some(Property::Audience)
        } else if name == "bcc"@ {
            Some(Property::Bcc)
        } else if name == "bto"@ {
            Some(Property::Bto)
        } else if name == "cc"@ {
            Some(Property::Cc)
        } else if name == "context"@ {
            Some(Property::Context)
        } else if name == "current"@ {
            Some(Property::Current)
        } else if name == "first"@ {
            Some(Property::First)
        } else if name == "generator"@ {
            Some(Property::Generator)
        } else if name == "icon"@ {
            Some(Property::Icon)
        } else if name == "image"@ {
            Some(Property::Image)
        } else if name == "inReplyTo"@ {
            Some(Property::InReplyTo)
        } else if name == "instrument"@ {
            Some(Property::Instrument)
        } else if name == "last"@ {
            Some(Property::Last)
        } else if name == "location"@ {
            Some(Property::Location)
        } else if name == "items"@ {
            Some(Property::Items)
        } else if name == "orderedItems"@ {
            Some(Property::OrderedItems)
        } else if name == "oneOf"@ {
            Some(Property::OneOf)
        } else if name == "anyOf"@ {
            Some(Property::AnyOf)
        } else if name == "closed"@ {
            Some(Property::Closed)
        } else if name == "origin"@ {
            Some(Property::Origin)
        } else if name == "next"@ {
            Some(Property::Next)
        } else if name == "object"@ {
            Some(Property::Object)
        } else if name == "prev"@ {
            Some(Property::Prev)
        } else if name == "preview"@ {
            Some(Property::Preview)
        } else if name == "result"@ {
            Some(Property::Result)
        } else if name == "replies"@ {
            Some(Property::Replies)
        } else if name == "tag"@ {
            Some(Property::Tag)
        } else if name == "target"@ {
            Some(Property::Target)
        } else if name == "to"@ {
            Some(Property::To)
        } else if name == "url"@ {
            Some(Property::Url)
        } else if name == "accuracy"@ {
            Some(Property::Accuracy)
        } else if name == "altitude"@ {
            Some(Property::Altitude)
        } else if name == "content"@ {
            Some(Property::Content)
        } else if name == "name"@ {
            Some(Property::Name)
        } else if name == "duration"@ {
            Some(Property::Duration)
        } else if name == "height"@ {
            Some(Property::Height)
        } else if name == "href"@ {
            Some(Property::Href)
        } else if name == "hreflang"@ {
            Some(Property::Hreflang)
        } else if name == "partOf"@ {
            Some(Property::PartOf)
        } else if name == "latitude"@ {
            Some(Property::Latitude)
        } else if name == "longitude"@ {
            Some(Property::Longitude)
        } else if name == "mediaType"@ {
            Some(Property::MediaType)
        } else if name == "endTime"@ {
            Some(Property::EndTime)
        } else if name == "published"@ {
            Some(Property::Published)
        } else if name == "startTime"@ {
            Some(Property::StartTime)
        } else if name == "radius"@ {
            Some(Property::Radius)
        } else if name == "rel"@ {
            Some(Property::Rel)
        } else if name == "startIndex"@ {
            Some(Property::StartIndex)
        } else if name == "summary"@ {
            Some(Property::Summary)
        } else if name == "totalItems"@ {
            Some(Property::TotalItems)
        } else if name == "units"@ {
            Some(Property::Units)
        } else if name == "updated"@ {
            Some(Property::Updated)
        } else if name == "width"@ {
            Some(Property::Width)
        } else if name == "subject"@ {
            Some(Property::Subject)
        } else if name == "relationship"@ {
            Some(Property::Relationship)
        } else if name == "describes"@ {
            Some(Property::Describes)
        } else if name == "formerType"@ {
            Some(Property::FormerType)
        } else if name == "deleted"@ {
            Some(Property::Deleted)
        } else if name == "source"@ {
            Some(Property::Source)
        } else if name == "inbox"@ {
            Some(Property::Inbox)
        } else if name == "outbox"@ {
            Some(Property::Outbox)
        } else if name == "following"@ {
            Some(Property::Following)
        } else if name == "followers"@ {
            Some(Property::Followers)
        } else if name == "liked"@ {
            Some(Property::Liked)
        } else if name == "streams"@ {
            Some(Property::Streams)
        } else if name == "endpoints"@ {
            Some(Property::Endpoints)
        } else if name == "preferredUsername"@ {
            Some(Property::PreferredUsername)
        } else {
            None
        }
    }

    /// The key under which a document holds this property.
    pub fn name(self) -> (r: &'static str)
        ensures
            r@ == self.name_spec(),
    {
        match self {
            Property::SchemaContext => "@context",
            Property::Type => "type",
            Property::Id => "id",
            Property::Actor => "actor",
            Property::Attachment => "attachment",
            Property::AttributedTo => "attributedTo",
            Property::Audience => "audience",
            Property::Bcc => "bcc",
            Property::Bto => "bto",
            Property::Cc => "cc",
            Property::Context => "context",
            Property::Current => "current",
            Property::First => "first",
            Property::Generator => "generator",
            Property::Icon => "icon",
            Property::Image => "image",
            Property::InReplyTo => "inReplyTo",
            Property::Instrument => "instrument",
            Property::Last => "last",
            Property::Location => "location",
            Property::Items => "items",
            Property::OrderedItems => "orderedItems",
            Property::OneOf => "oneOf",
            Property::AnyOf => "anyOf",
            Property::Closed => "closed",
            Property::Origin => "origin",
            Property::Next => "next",
            Property::Object => "object",
            Property::Prev => "prev",
            Property::Preview => "preview",
            Property::Result => "result",
            Property::Replies => "replies",
            Property::Tag => "tag",
            Property::Target => "target",
            Property::To => "to",
            Property::Url => "url",
            Property::Accuracy => "accuracy",
            Property::Altitude => "altitude",
            Property::Content => "content",
            Property::Name => "name",
            Property::Duration => "duration",
            Property::Height => "height",
            Property::Href => "href",
            Property::Hreflang => "hreflang",
            Property::PartOf => "partOf",
            Property::Latitude => "latitude",
            Property::Longitude => "longitude",
            Property::MediaType => "mediaType",
            Property::EndTime => "endTime",
            Property::Published => "published",
            Property::StartTime => "startTime",
            Property::Radius => "radius",
            Property::Rel => "rel",
            Property::StartIndex => "startIndex",
            Property::Summary => "summary",
            Property::TotalItems => "totalItems",
            Property::Units => "units",
            Property::Updated => "updated",
            Property::Width => "width",
            Property::Subject => "subject",
            Property::Relationship => "relationship",
            Property::Describes => "describes",
            Property::FormerType => "formerType",
            Property::Deleted => "deleted",
            Property::Source => "source",
            Property::Inbox => "inbox",
            Property::Outbox => "outbox",
            Property::Following => "following",
            Property::Followers => "followers",
            Property::Liked => "liked",
            Property::Streams => "streams",
            Property::Endpoints => "endpoints",
            Property::PreferredUsername => "preferredUsername",
        }
    }

    /// The property that a key names; `None` for any other key.
    pub fn from_name(name: &str) -> (r: Option<Property>)
        ensures
            r == Property::from_name_spec(name@),
    {
        if same_text(name, "@context") {
            Some(Property::SchemaContext)
        } else if same_text(name, "type") {
            Some(Property::Type)
        } else if same_text(name, "id") {
            Some(Property::Id)
        } else if same_text(name, "actor") {
            Some(Property::Actor)
        } else if same_text(name, "attachment") {
            Some(Property::Attachment)
        } else if same_text(name, "attributedTo") {
            Some(Property::AttributedTo)
        } else if same_text(name, "audience") {
            Some(Property::Audience)
        } else if same_text(name, "bcc") {
            Some(Property::Bcc)
        } else if same_text(name, "bto") {
            Some(Property::Bto)
        } else if same_text(name, "cc") {
            Some(Property::Cc)
        } else if same_text(name, "context") {
            Some(Property::Context)
        } else if same_text(name, "current") {
            Some(Property::Current)
        } else if same_text(name, "first") {
            Some(Property::First)
        } else if same_text(name, "generator") {
            Some(Property::Generator)
        } else if same_text(name, "icon") {
            Some(Property::Icon)
        } else if same_text(name, "image") {
            Some(Property::Image)
        } else if same_text(name, "inReplyTo") {
            Some(Property::InReplyTo)
        } else if same_text(name, "instrument") {
            Some(Property::Instrument)
        } else if same_text(name, "last") {
            Some(Property::Last)
        } else if same_text(name, "location") {
            Some(Property::Location)
        } else if same_text(name, "items") {
            Some(Property::Items)
        } else if same_text(name, "orderedItems") {
            Some(Property::OrderedItems)
        } else if same_text(name, "oneOf") {
            Some(Property::OneOf)
        } else if same_text(name, "anyOf") {
            Some(Property::AnyOf)
        } else if same_text(name, "closed") {
            Some(Property::Closed)
        } else if same_text(name, "origin") {
            Some(Property::Origin)
        } else if same_text(name, "next") {
            Some(Property::Next)
        } else if same_text(name, "object") {
            Some(Property::Object)
        } else if same_text(name, "prev") {
            Some(Property::Prev)
        } else if same_text(name, "preview") {
            Some(Property::Preview)
        } else if same_text(name, "result") {
            Some(Property::Result)
        } else if same_text(name, "replies") {
            Some(Property::Replies)
        } else if same_text(name, "tag") {
            Some(Property::Tag)
        } else if same_text(name, "target") {
            Some(Property::Target)
        } else if same_text(name, "to") {
            Some(Property::To)
        } else if same_text(name, "url") {
            Some(Property::Url)
        } else if same_text(name, "accuracy") {
            Some(Property::Accuracy)
        } else if same_text(name, "altitude") {
            Some(Property::Altitude)
        } else if same_text(name, "content") {
            Some(Property::Content)
        } else if same_text(name, "name") {
            Some(Property::Name)
        } else if same_text(name, "duration") {
            Some(Property::Duration)
        } else if same_text(name, "height") {
            Some(Property::Height)
        } else if same_text(name, "href") {
            Some(Property::Href)
        } else if same_text(name, "hreflang") {
            Some(Property::Hreflang)
        } else if same_text(name, "partOf") {
            Some(Property::PartOf)
        } else if same_text(name, "latitude") {
            Some(Property::Latitude)
        } else if same_text(name, "longitude") {
            Some(Property::Longitude)
        } else if same_text(name, "mediaType") {
            Some(Property::MediaType)
        } else if same_text(name, "endTime") {
            Some(Property::EndTime)
        } else if same_text(name, "published") {
            Some(Property::Published)
        } else if same_text(name, "startTime") {
            Some(Property::StartTime)
        } else if same_text(name, "radius") {
            Some(Property::Radius)
        } else if same_text(name, "rel") {
            Some(Property::Rel)
        } else if same_text(name, "startIndex") {
            Some(Property::StartIndex)
        } else if same_text(name, "summary") {
            Some(Property::Summary)
        } else if same_text(name, "totalItems") {
            Some(Property::TotalItems)
        } else if same_text(name, "units") {
            Some(Property::Units)
        } else if same_text(name, "updated") {
            Some(Property::Updated)
        } else if same_text(name, "width") {
            Some(Property::Width)
        } else if same_text(name, "subject") {
            Some(Property::Subject)
        } else if same_text(name, "relationship") {
            Some(Property::Relationship)
        } else if same_text(name, "describes") {
            Some(Property::Describes)
        } else if same_text(name, "formerType") {
            Some(Property::FormerType)
        } else if same_text(name, "deleted") {
            Some(Property::Deleted)
        } else if same_text(name, "source") {
            Some(Property::Source)
        } else if same_text(name, "inbox") {
            Some(Property::Inbox)
        } else if same_text(name, "outbox") {
            Some(Property::Outbox)
        } else if same_text(name, "following") {
            Some(Property::Following)
        } else if same_text(name, "followers") {
            Some(Property::Followers)
        } else if same_text(name, "liked") {
            Some(Property::Liked)
        } else if same_text(name, "streams") {
            Some(Property::Streams)
        } else if same_text(name, "endpoints") {
            Some(Property::Endpoints)
        } else if same_text(name, "preferredUsername") {
            Some(Property::PreferredUsername)
        } else {
            None
        }
    }

    /// Every property is found again under its own key.
    pub proof fn lemma_name_round_trip(self)
        ensures
            Property::from_name_spec(self.name_spec()) == Some(self),
    {
        reveal_strlit("@context");
        assert(outline("@context"@) == (8nat, '@', 'o', 'e', 'x', ' '));
        reveal_strlit("type");
        assert(outline("type"@) == (4nat, 't', 'p', ' ', ' ', ' '));
        reveal_strlit("id");
        assert(outline("id"@) == (2nat, 'i', ' ', ' ', ' ', ' '));
        reveal_strlit("actor");
        assert(outline("actor"@) == (5nat, 'a', 't', ' ', ' ', ' '));
        reveal_strlit("attachment");
        assert(outline("attachment"@) == (10nat, 'a', 't', 'h', 'm', 't'));
        reveal_strlit("attributedTo");
        assert(outline("attributedTo"@) == (12nat, 'a', 't', 'b', 'u', 'd'));
        reveal_strlit("audience");
        assert(outline("audience"@) == (8nat, 'a', 'd', 'n', 'c', ' '));
        reveal_strlit("bcc");
        assert(outline("bcc"@) == (3nat, 'b', 'c', ' ', ' ', ' '));
        reveal_strlit("bto");
        assert(outline("bto"@) == (3nat, 'b', 'o', ' ', ' ', ' '));
        reveal_strlit("cc");
        assert(outline("cc"@) == (2nat, 'c', ' ', ' ', ' ', ' '));
        reveal_strlit("context");
        assert(outline("context"@) == (7nat, 'c', 'n', 'x', 't', ' '));
        reveal_strlit("current");
        assert(outline("current"@) == (7nat, 'c', 'r', 'n', 't', ' '));
        reveal_strlit("first");
        assert(outline("first"@) == (5nat, 'f', 'r', ' ', ' ', ' '));
        reveal_strlit("generator");
        assert(outline("generator"@) == (9nat, 'g', 'n', 'a', 't', ' '));
        reveal_strlit("icon");
        assert(outline("icon"@) == (4nat, 'i', 'o', ' ', ' ', ' '));
        reveal_strlit("image");
        assert(outline("image"@) == (5nat, 'i', 'a', ' ', ' ', ' '));
        reveal_strlit("inReplyTo");
        assert(outline("inReplyTo"@) == (9nat, 'i', 'R', 'l', 'y', ' '));
        reveal_strlit("instrument");
        assert(outline("instrument"@) == (10nat, 'i', 's', 'u', 'm', 't'));
        reveal_strlit("last");
        assert(outline("last"@) == (4nat, 'l', 's', ' ', ' ', ' '));
        reveal_strlit("location");
        assert(outline("location"@) == (8nat, 'l', 'c', 'i', 'o', ' '));
        reveal_strlit("items");
        assert(outline("items"@) == (5nat, 'i', 'e', ' ', ' ', ' '));
        reveal_strlit("orderedItems");
        assert(outline("orderedItems"@) == (12nat, 'o', 'd', 'e', 'd', 'e'));
        reveal_strlit("oneOf");
        assert(outline("oneOf"@) == (5nat, 'o', 'e', ' ', ' ', ' '));
        reveal_strlit("anyOf");
        assert(outline("anyOf"@) == (5nat, 'a', 'y', ' ', ' ', ' '));
        reveal_strlit("closed");
        assert(outline("closed"@) == (6nat, 'c', 'o', 'd', ' ', ' '));
        reveal_strlit("origin");
        assert(outline("origin"@) == (6nat, 'o', 'i', 'n', ' ', ' '));
        reveal_strlit("next");
        assert(outline("next"@) == (4nat, 'n', 'x', ' ', ' ', ' '));
        reveal_strlit("object");
        assert(outline("object"@) == (6nat, 'o', 'j', 't', ' ', ' '));
        reveal_strlit("prev");
        assert(outline("prev"@) == (4nat, 'p', 'e', ' ', ' ', ' '));
        reveal_strlit("preview");
        assert(outline("preview"@) == (7nat, 'p', 'e', 'e', 'w', ' '));
        reveal_strlit("result");
        assert(outline("result"@) == (6nat, 'r', 's', 't', ' ', ' '));
        reveal_strlit("replies");
        assert(outline("replies"@) == (7nat, 'r', 'p', 'e', 's', ' '));
        reveal_strlit("tag");
        assert(outline("tag"@) == (3nat, 't', 'g', ' ', ' ', ' '));
        reveal_strlit("target");
        assert(outline("target"@) == (6nat, 't', 'r', 't', ' ', ' '));
        reveal_strlit("to");
        assert(outline("to"@) == (2nat, 't', ' ', ' ', ' ', ' '));
        reveal_strlit("url");
        assert(outline("url"@) == (3nat, 'u', 'l', ' ', ' ', ' '));
        reveal_strlit("accuracy");
        assert(outline("accuracy"@) == (8nat, 'a', 'c', 'a', 'c', ' '));
        reveal_strlit("altitude");
        assert(outline("altitude"@) == (8nat, 'a', 't', 'u', 'd', ' '));
        reveal_strlit("content");
        assert(outline("content"@) == (7nat, 'c', 'n', 'n', 't', ' '));
        reveal_strlit("name");
        assert(outline("name"@) == (4nat, 'n', 'm', ' ', ' ', ' '));
        reveal_strlit("duration");
        assert(outline("duration"@) == (8nat, 'd', 'r', 'i', 'o', ' '));
        reveal_strlit("height");
        assert(outline("height"@) == (6nat, 'h', 'i', 't', ' ', ' '));
        reveal_strlit("href");
        assert(outline("href"@) == (4nat, 'h', 'e', ' ', ' ', ' '));
        reveal_strlit("hreflang");
        assert(outline("hreflang"@) == (8nat, 'h', 'e', 'a', 'n', ' '));
        reveal_strlit("partOf");
        assert(outline("partOf"@) == (6nat, 'p', 'r', 'f', ' ', ' '));
        reveal_strlit("latitude");
        assert(outline("latitude"@) == (8nat, 'l', 't', 'u', 'd', ' '));
        reveal_strlit("longitude");
        assert(outline("longitude"@) == (9nat, 'l', 'n', 't', 'u', ' '));
        reveal_strlit("mediaType");
        assert(outline("mediaType"@) == (9nat, 'm', 'd', 'T', 'y', ' '));
        reveal_strlit("endTime");
        assert(outline("endTime"@) == (7nat, 'e', 'd', 'm', 'e', ' '));
        reveal_strlit("published");
        assert(outline("published"@) == (9nat, 'p', 'b', 's', 'h', ' '));
        reveal_strlit("startTime");
        assert(outline("startTime"@) == (9nat, 's', 'a', 'T', 'i', ' '));
        reveal_strlit("radius");
        assert(outline("radius"@) == (6nat, 'r', 'd', 's', ' ', ' '));
        reveal_strlit("rel");
        assert(outline("rel"@) == (3nat, 'r', 'l', ' ', ' ', ' '));
        reveal_strlit("startIndex");
        assert(outline("startIndex"@) == (10nat, 's', 'a', 'I', 'n', 'x'));
        reveal_strlit("summary");
        assert(outline("summary"@) == (7nat, 's', 'm', 'r', 'y', ' '));
        reveal_strlit("totalItems");
        assert(outline("totalItems"@) == (10nat, 't', 't', 'I', 't', 's'));
        reveal_strlit("units");
        assert(outline("units"@) == (5nat, 'u', 'i', ' ', ' ', ' '));
        reveal_strlit("updated");
        assert(outline("updated"@) == (7nat, 'u', 'd', 'e', 'd', ' '));
        reveal_strlit("width");
        assert(outline("width"@) == (5nat, 'w', 'd', ' ', ' ', ' '));
        reveal_strlit("subject");
        assert(outline("subject"@) == (7nat, 's', 'b', 'c', 't', ' '));
        reveal_strlit("relationship");
        assert(outline("relationship"@) == (12nat, 'r', 'l', 'i', 'o', 'h'));
        reveal_strlit("describes");
        assert(outline("describes"@) == (9nat, 'd', 's', 'i', 'b', ' '));
        reveal_strlit("formerType");
        assert(outline("formerType"@) == (10nat, 'f', 'r', 'r', 'T', 'e'));
        reveal_strlit("deleted");
        assert(outline("deleted"@) == (7nat, 'd', 'l', 'e', 'd', ' '));
        reveal_strlit("source");
        assert(outline("source"@) == (6nat, 's', 'u', 'e', ' ', ' '));
        reveal_strlit("inbox");
        assert(outline("inbox"@) == (5nat, 'i', 'b', ' ', ' ', ' '));
        reveal_strlit("outbox");
        assert(outline("outbox"@) == (6nat, 'o', 't', 'x', ' ', ' '));
        reveal_strlit("following");
        assert(outline("following"@) == (9nat, 'f', 'l', 'w', 'i', ' '));
        reveal_strlit("followers");
        assert(outline("followers"@) == (9nat, 'f', 'l', 'w', 'e', ' '));
        reveal_strlit("liked");
        assert(outline("liked"@) == (5nat, 'l', 'k', ' ', ' ', ' '));
        reveal_strlit("streams");
        assert(outline("streams"@) == (7nat, 's', 'r', 'm', 's', ' '));
        reveal_strlit("endpoints");
        assert(outline("endpoints"@) == (9nat, 'e', 'd', 'i', 'n', ' '));
        reveal_strlit("preferredUsername");
        assert(outline("preferredUsername"@) == (17nat, 'p', 'e', 'r', 'r', 'U'));
    }

    /// A key that names a property is that property's own key.
    pub proof fn lemma_name_of_named(name: Seq<char>)
        ensures
            Property::from_name_spec(name) matches Some(property) ==> property.name_spec() == name,
    {
    }

    /// Two properties with the same key are the same property.
    pub proof fn lemma_names_differ(self, other: Property)
        requires
            self.name_spec() == other.name_spec(),
        ensures
            self == other,
    {
        self.lemma_name_round_trip();
        other.lemma_name_round_trip();
    }

    /// Whether the values of this property are links: URLs or embedded objects.
    pub open spec fn holds_links_spec(self) -> bool {
        match self {
            Property::Actor
            | Property::Attachment
            | Property::AttributedTo
            | Property::Audience
            | Property::Bcc
            | Property::Bto
            | Property::Cc
            | Property::Context
            | Property::Current
            | Property::First
            | Property::Generator
            | Property::Icon
            | Property::Image
            | Property::InReplyTo
            | Property::Instrument
            | Property::Last
            | Property::Location
            | Property::Items
            | Property::OrderedItems
            | Property::OneOf
            | Property::AnyOf
            | Property::Origin
            | Property::Next
            | Property::Object
            | Property::Prev
            | Property::Preview
            | Property::Result
            | Property::Replies
            | Property::Tag
            | Property::Target
            | Property::To
            | Property::Url
            | Property::PartOf
            | Property::Subject
            | Property::Relationship
            | Property::FormerType
            | Property::Inbox
            | Property::Outbox
            | Property::Following
            | Property::Followers
            | Property::Liked
            | Property::Streams => true,
            _ => false,
        }
    }

    /// Whether the values of this property are links: URLs or embedded objects.
    pub fn holds_links(self) -> (r: bool)
        ensures
            r == self.holds_links_spec(),
    {
        match self {
            Property::Actor
            | Property::Attachment
            | Property::AttributedTo
            | Property::Audience
            | Property::Bcc
            | Property::Bto
            | Property::Cc
            | Property::Context
            | Property::Current
            | Property::First
            | Property::Generator
            | Property::Icon
            | Property::Image
            | Property::InReplyTo
            | Property::Instrument
            | Property::Last
            | Property::Location
            | Property::Items
            | Property::OrderedItems
            | Property::OneOf
            | Property::AnyOf
            | Property::Origin
            | Property::Next
            | Property::Object
            | Property::Prev
            | Property::Preview
            | Property::Result
            | Property::Replies
            | Property::Tag
            | Property::Target
            | Property::To
            | Property::Url
            | Property::PartOf
            | Property::Subject
            | Property::Relationship
            | Property::FormerType
            | Property::Inbox
            | Property::Outbox
            | Property::Following
            | Property::Followers
            | Property::Liked
            | Property::Streams => true,
            _ => false,
        }
    }

    /// Whether the links of this property are resolved when a whole object
    /// is. The cursors of a paged collection (`next`, `prev`, `partOf`), the
    /// `url` of an object and its `streams` are not: following them would
    /// walk through whole collections, or fetch what is no object.
    pub open spec fn auto_resolved_spec(self) -> bool {
        match self {
            Property::Actor
            | Property::Attachment
            | Property::AttributedTo
            | Property::Audience
            | Property::Bcc
            | Property::Bto
            | Property::Cc
            | Property::Context
            | Property::Current
            | Property::First
            | Property::Generator
            | Property::Icon
            | Property::Image
            | Property::InReplyTo
            | Property::Instrument
            | Property::Last
            | Property::Location
            | Property::Items
            | Property::OrderedItems
            | Property::OneOf
            | Property::AnyOf
            | Property::Origin
            | Property::Object
            | Property::Preview
            | Property::Result
            | Property::Replies
            | Property::Tag
            | Property::Target
            | Property::To
            | Property::Subject
            | Property::Relationship
            | Property::FormerType
            | Property::Inbox
            | Property::Outbox
            | Property::Following
            | Property::Followers
            | Property::Liked => true,
            _ => false,
        }
    }

    /// Whether the links of this property are resolved when a whole object is.
    pub fn auto_resolved(self) -> (r: bool)
        ensures
            r == self.auto_resolved_spec(),
            r ==> self.holds_links_spec(),
    {
        match self {
            Property::Actor
            | Property::Attachment
            | Property::AttributedTo
            | Property::Audience
            | Property::Bcc
            | Property::Bto
            | Property::Cc
            | Property::Context
            | Property::Current
            | Property::First
            | Property::Generator
            | Property::Icon
            | Property::Image
            | Property::InReplyTo
            | Property::Instrument
            | Property::Last
            | Property::Location
            | Property::Items
            | Property::OrderedItems
            | Property::OneOf
            | Property::AnyOf
            | Property::Origin
            | Property::Object
            | Property::Preview
            | Property::Result
            | Property::Replies
            | Property::Tag
            | Property::Target
            | Property::To
            | Property::Subject
            | Property::Relationship
            | Property::FormerType
            | Property::Inbox
            | Property::Outbox
            | Property::Following
            | Property::Followers
            | Property::Liked => true,
            _ => false,
        }
    }

    /// The property that a name in snake case selects for resolution: one
    /// that holds links or an embedded object.
    pub open spec fn target_of(name: Seq<char>) -> Option<Property> {
        if name == "actor"@ {
            Some(Property::Actor)
        } else if name == "attachment"@ {
            Some(Property::Attachment)
        } else if name == "attributed_to"@ {
            Some(Property::AttributedTo)
        } else if name == "audience"@ {
            Some(Property::Audience)
        } else if name == "bcc"@ {
            Some(Property::Bcc)
        } else if name == "bto"@ {
            Some(Property::Bto)
        } else if name == "cc"@ {
            Some(Property::Cc)
        } else if name == "context"@ {
            Some(Property::Context)
        } else if name == "current"@ {
            Some(Property::Current)
        } else if name == "first"@ {
            Some(Property::First)
        } else if name == "generator"@ {
            Some(Property::Generator)
        } else if name == "icon"@ {
            Some(Property::Icon)
        } else if name == "image"@ {
            Some(Property::Image)
        } else if name == "in_reply_to"@ {
            Some(Property::InReplyTo)
        } else if name == "instrument"@ {
            Some(Property::Instrument)
        } else if name == "last"@ {
            Some(Property::Last)
        } else if name == "location"@ {
            Some(Property::Location)
        } else if name == "items"@ {
            Some(Property::Items)
        } else if name == "ordered_items"@ {
            Some(Property::OrderedItems)
        } else if name == "one_of"@ {
            Some(Property::OneOf)
        } else if name == "any_of"@ {
            Some(Property::AnyOf)
        } else if name == "origin"@ {
            Some(Property::Origin)
        } else if name == "next"@ {
            Some(Property::Next)
        } else if name == "object"@ {
            Some(Property::Object)
        } else if name == "prev"@ {
            Some(Property::Prev)
        } else if name == "preview"@ {
            Some(Property::Preview)
        } else if name == "result"@ {
            Some(Property::Result)
        } else if name == "replies"@ {
            Some(Property::Replies)
        } else if name == "tag"@ {
            Some(Property::Tag)
        } else if name == "target"@ {
            Some(Property::Target)
        } else if name == "to"@ {
            Some(Property::To)
        } else if name == "url"@ {
            Some(Property::Url)
        } else if name == "part_of"@ {
            Some(Property::PartOf)
        } else if name == "subject"@ {
            Some(Property::Subject)
        } else if name == "relationship"@ {
            Some(Property::Relationship)
        } else if name == "describes"@ {
            Some(Property::Describes)
        } else if name == "former_type"@ {
            Some(Property::FormerType)
        } else if name == "source"@ {
            Some(Property::Source)
        } else if name == "inbox"@ {
            Some(Property::Inbox)
        } else if name == "outbox"@ {
            Some(Property::Outbox)
        } else if name == "following"@ {
            Some(Property::Following)
        } else if name == "followers"@ {
            Some(Property::Followers)
        } else if name == "liked"@ {
            Some(Property::Liked)
        } else if name == "streams"@ {
            Some(Property::Streams)
        } else {
            None
        }
    }

    /// The name in snake case under which this property is selected for
    /// resolution.
    pub open spec fn target_name_spec(self) -> Seq<char> {
        match self {
            Property::Actor => "actor"@,
            Property::Attachment => "attachment"@,
            Property::AttributedTo => "attributed_to"@,
            Property::Audience => "audience"@,
            Property::Bcc => "bcc"@,
            Property::Bto => "bto"@,
            Property::Cc => "cc"@,
            Property::Context => "context"@,
            Property::Current => "current"@,
            Property::First => "first"@,
            Property::Generator => "generator"@,
            Property::Icon => "icon"@,
            Property::Image => "image"@,
            Property::InReplyTo => "in_reply_to"@,
            Property::Instrument => "instrument"@,
            Property::Last => "last"@,
            Property::Location => "location"@,
            Property::Items => "items"@,
            Property::OrderedItems => "ordered_items"@,
            Property::OneOf => "one_of"@,
            Property::AnyOf => "any_of"@,
            Property::Origin => "origin"@,
            Property::Next => "next"@,
            Property::Object => "object"@,
            Property::Prev => "prev"@,
            Property::Preview => "preview"@,
            Property::Result => "result"@,
            Property::Replies => "replies"@,
            Property::Tag => "tag"@,
            Property::Target => "target"@,
            Property::To => "to"@,
            Property::Url => "url"@,
            Property::PartOf => "part_of"@,
            Property::Subject => "subject"@,
            Property::Relationship => "relationship"@,
            Property::Describes => "describes"@,
            Property::FormerType => "former_type"@,
            Property::Source => "source"@,
            Property::Inbox => "inbox"@,
            Property::Outbox => "outbox"@,
            Property::Following => "following"@,
            Property::Followers => "followers"@,
            Property::Liked => "liked"@,
            Property::Streams => "streams"@,
            _ => Seq::empty(),
        }
    }

    /// Whether this property can be selected for resolution.
    pub open spec fn is_target(self) -> bool {
        match self {
            Property::Actor
            | Property::Attachment
            | Property::AttributedTo
            | Property::Audience
            | Property::Bcc
            | Property::Bto
            | Property::Cc
            | Property::Context
            | Property::Current
            | Property::First
            | Property::Generator
            | Property::Icon
            | Property::Image
            | Property::InReplyTo
            | Property::Instrument
            | Property::Last
            | Property::Location
            | Property::Items
            | Property::OrderedItems
            | Property::OneOf
            | Property::AnyOf
            | Property::Origin
            | Property::Next
            | Property::Object
            | Property::Prev
            | Property::Preview
            | Property::Result
            | Property::Replies
            | Property::Tag
            | Property::Target
            | Property::To
            | Property::Url
            | Property::PartOf
            | Property::Subject
            | Property::Relationship
            | Property::Describes
            | Property::FormerType
            | Property::Source
            | Property::Inbox
            | Property::Outbox
            | Property::Following
            | Property::Followers
            | Property::Liked
            | Property::Streams => true,
            _ => false,
        }
    }

    /// What selecting a property by a name in snake case returns: the
    /// property, or an error where the name selects none.
    pub open spec fn target_result(name: Seq<char>) -> Result<Property, Error> {
        match Property::target_of(name) {
            Some(property) => Ok(property),
            None => Err(Error::NonResolvableProperty),
        }
    }

    /// The property that a name in snake case selects for resolution.
    pub fn from_internal_name(name: &str) -> (r: Result<Property, Error>)
        ensures
            r == Property::target_result(name@),
    {
        if same_text(name, "actor") {
            Ok(Property::Actor)
        } else if same_text(name, "attachment") {
            Ok(Property::Attachment)
        } else if same_text(name, "attributed_to") {
            Ok(Property::AttributedTo)
        } else if same_text(name, "audience") {
            Ok(Property::Audience)
        } else if same_text(name, "bcc") {
            Ok(Property::Bcc)
        } else if same_text(name, "bto") {
            Ok(Property::Bto)
        } else if same_text(name, "cc") {
            Ok(Property::Cc)
        } else if same_text(name, "context") {
            Ok(Property::Context)
        } else if same_text(name, "current") {
            Ok(Property::Current)
        } else if same_text(name, "first") {
            Ok(Property::First)
        } else if same_text(name, "generator") {
            Ok(Property::Generator)
        } else if same_text(name, "icon") {
            Ok(Property::Icon)
        } else if same_text(name, "image") {
            Ok(Property::Image)
        } else if same_text(name, "in_reply_to") {
            Ok(Property::InReplyTo)
        } else if same_text(name, "instrument") {
            Ok(Property::Instrument)
        } else if same_text(name, "last") {
            Ok(Property::Last)
        } else if same_text(name, "location") {
            Ok(Property::Location)
        } else if same_text(name, "items") {
            Ok(Property::Items)
        } else if same_text(name, "ordered_items") {
            Ok(Property::OrderedItems)
        } else if same_text(name, "one_of") {
            Ok(Property::OneOf)
        } else if same_text(name, "any_of") {
            Ok(Property::AnyOf)
        } else if same_text(name, "origin") {
            Ok(Property::Origin)
        } else if same_text(name, "next") {
            Ok(Property::Next)
        } else if same_text(name, "object") {
            Ok(Property::Object)
        } else if same_text(name, "prev") {
            Ok(Property::Prev)
        } else if same_text(name, "preview") {
            Ok(Property::Preview)
        } else if same_text(name, "result") {
            Ok(Property::Result)
        } else if same_text(name, "replies") {
            Ok(Property::Replies)
        } else if same_text(name, "tag") {
            Ok(Property::Tag)
        } else if same_text(name, "target") {
            Ok(Property::Target)
        } else if same_text(name, "to") {
            Ok(Property::To)
        } else if same_text(name, "url") {
            Ok(Property::Url)
        } else if same_text(name, "part_of") {
            Ok(Property::PartOf)
        } else if same_text(name, "subject") {
            Ok(Property::Subject)
        } else if same_text(name, "relationship") {
            Ok(Property::Relationship)
        } else if same_text(name, "describes") {
            Ok(Property::Describes)
        } else if same_text(name, "former_type") {
            Ok(Property::FormerType)
        } else if same_text(name, "source") {
            Ok(Property::Source)
        } else if same_text(name, "inbox") {
            Ok(Property::Inbox)
        } else if same_text(name, "outbox") {
            Ok(Property::Outbox)
        } else if same_text(name, "following") {
            Ok(Property::Following)
        } else if same_text(name, "followers") {
            Ok(Property::Followers)
        } else if same_text(name, "liked") {
            Ok(Property::Liked)
        } else if same_text(name, "streams") {
            Ok(Property::Streams)
        } else {
            Err(Error::NonResolvableProperty)
        }
    }

    /// The property that a name selects for resolution, however the name is
    /// cased: `inReplyTo`, `in_reply_to` and `InReplyTo` select the same.
    pub fn target(name: &str) -> (r: Result<Property, Error>)
        ensures
            r == Property::target_result(snake_case(name@)),
    {
        let normalized = to_snake_case(name);
        Property::from_internal_name(normalized.as_str())
    }

    /// Every property that can be selected is selected by its own name.
    pub proof fn lemma_target_round_trip(self)
        requires
            self.is_target(),
        ensures
            Property::target_of(self.target_name_spec()) == Some(self),
    {
        reveal_strlit("actor");
        assert(outline("actor"@) == (5nat, 'a', 't', ' ', ' ', ' '));
        reveal_strlit("attachment");
        assert(outline("attachment"@) == (10nat, 'a', 't', 'h', 'm', 't'));
        reveal_strlit("attributed_to");
        assert(outline("attributed_to"@) == (13nat, 'a', 't', 'b', 'u', 'd'));
        reveal_strlit("audience");
        assert(outline("audience"@) == (8nat, 'a', 'd', 'n', 'c', ' '));
        reveal_strlit("bcc");
        assert(outline("bcc"@) == (3nat, 'b', 'c', ' ', ' ', ' '));
        reveal_strlit("bto");
        assert(outline("bto"@) == (3nat, 'b', 'o', ' ', ' ', ' '));
        reveal_strlit("cc");
        assert(outline("cc"@) == (2nat, 'c', ' ', ' ', ' ', ' '));
        reveal_strlit("context");
        assert(outline("context"@) == (7nat, 'c', 'n', 'x', 't', ' '));
        reveal_strlit("current");
        assert(outline("current"@) == (7nat, 'c', 'r', 'n', 't', ' '));
        reveal_strlit("first");
        assert(outline("first"@) == (5nat, 'f', 'r', ' ', ' ', ' '));
        reveal_strlit("generator");
        assert(outline("generator"@) == (9nat, 'g', 'n', 'a', 't', ' '));
        reveal_strlit("icon");
        assert(outline("icon"@) == (4nat, 'i', 'o', ' ', ' ', ' '));
        reveal_strlit("image");
        assert(outline("image"@) == (5nat, 'i', 'a', ' ', ' ', ' '));
        reveal_strlit("in_reply_to");
        assert(outline("in_reply_to"@) == (11nat, 'i', '_', 'p', 'l', 't'));
        reveal_strlit("instrument");
        assert(outline("instrument"@) == (10nat, 'i', 's', 'u', 'm', 't'));
        reveal_strlit("last");
        assert(outline("last"@) == (4nat, 'l', 's', ' ', ' ', ' '));
        reveal_strlit("location");
        assert(outline("location"@) == (8nat, 'l', 'c', 'i', 'o', ' '));
        reveal_strlit("items");
        assert(outline("items"@) == (5nat, 'i', 'e', ' ', ' ', ' '));
        reveal_strlit("ordered_items");
        assert(outline("ordered_items"@) == (13nat, 'o', 'd', 'e', 'd', 't'));
        reveal_strlit("one_of");
        assert(outline("one_of"@) == (6nat, 'o', 'e', 'f', ' ', ' '));
        reveal_strlit("any_of");
        assert(outline("any_of"@) == (6nat, 'a', 'y', 'f', ' ', ' '));
        reveal_strlit("origin");
        assert(outline("origin"@) == (6nat, 'o', 'i', 'n', ' ', ' '));
        reveal_strlit("next");
        assert(outline("next"@) == (4nat, 'n', 'x', ' ', ' ', ' '));
        reveal_strlit("object");
        assert(outline("object"@) == (6nat, 'o', 'j', 't', ' ', ' '));
        reveal_strlit("prev");
        assert(outline("prev"@) == (4nat, 'p', 'e', ' ', ' ', ' '));
        reveal_strlit("preview");
        assert(outline("preview"@) == (7nat, 'p', 'e', 'e', 'w', ' '));
        reveal_strlit("result");
        assert(outline("result"@) == (6nat, 'r', 's', 't', ' ', ' '));
        reveal_strlit("replies");
        assert(outline("replies"@) == (7nat, 'r', 'p', 'e', 's', ' '));
        reveal_strlit("tag");
        assert(outline("tag"@) == (3nat, 't', 'g', ' ', ' ', ' '));
        reveal_strlit("target");
        assert(outline("target"@) == (6nat, 't', 'r', 't', ' ', ' '));
        reveal_strlit("to");
        assert(outline("to"@) == (2nat, 't', ' ', ' ', ' ', ' '));
        reveal_strlit("url");
        assert(outline("url"@) == (3nat, 'u', 'l', ' ', ' ', ' '));
        reveal_strlit("part_of");
        assert(outline("part_of"@) == (7nat, 'p', 'r', 'o', 'f', ' '));
        reveal_strlit("subject");
        assert(outline("subject"@) == (7nat, 's', 'b', 'c', 't', ' '));
        reveal_strlit("relationship");
        assert(outline("relationship"@) == (12nat, 'r', 'l', 'i', 'o', 'h'));
        reveal_strlit("describes");
        assert(outline("describes"@) == (9nat, 'd', 's', 'i', 'b', ' '));
        reveal_strlit("former_type");
        assert(outline("former_type"@) == (11nat, 'f', 'r', 'r', '_', 'p'));
        reveal_strlit("source");
        assert(outline("source"@) == (6nat, 's', 'u', 'e', ' ', ' '));
        reveal_strlit("inbox");
        assert(outline("inbox"@) == (5nat, 'i', 'b', ' ', ' ', ' '));
        reveal_strlit("outbox");
        assert(outline("outbox"@) == (6nat, 'o', 't', 'x', ' ', ' '));
        reveal_strlit("following");
        assert(outline("following"@) == (9nat, 'f', 'l', 'w', 'i', ' '));
        reveal_strlit("followers");
        assert(outline("followers"@) == (9nat, 'f', 'l', 'w', 'e', ' '));
        reveal_strlit("liked");
        assert(outline("liked"@) == (5nat, 'l', 'k', ' ', ' ', ' '));
        reveal_strlit("streams");
        assert(outline("streams"@) == (7nat, 's', 'r', 'm', 's', ' '));
    }
}

} // verus!
