//! Resolving the links of one property of an object.

use crate::error::Error;
use crate::error::FetchError;
use crate::laws::outcomes_wf;
use crate::object::lemma_all_properties_wf;
use crate::object::lemma_properties_wf;
use crate::object::lemma_take_frame;
use crate::object::lemma_take_same;
use crate::object::lemma_wf_same;
use crate::object::object_wf;
use crate::object::property_wf;
use crate::object::take_property;
use crate::object::Object;
use crate::object::ObjectView;
use crate::property::Property;
use crate::property::PROPERTY_COUNT;
use crate::laws::lemma_link_settled_wf;
use crate::laws::lemma_one_fetched_link;
use crate::laws::lemma_one_fetched_links;
use crate::laws::lemma_links_settled_wf;
use crate::laws::lemma_resolved_link_stays;
use crate::laws::lemma_resolved_links_stay;
use crate::resolve::link_pending;
use crate::resolve::link_settled;
use crate::resolve::links_pending;
use crate::resolve::links_settled;
use crate::resolve::outcomes_view;
use crate::resolve::urls_view;
use crate::resolve::verdict;
use crate::resolve::Outcome;
use crate::resolve::OutcomeView;
use crate::resolve::pending_link;
use crate::resolve::pending_links;
use crate::resolve::resolve_link;
use crate::resolve::resolve_links;
use crate::url::Url;
use vstd::prelude::*;

verus! {

/// The URLs that a property of an object awaits a fetch of, in order. A
/// property that holds no links awaits none.
pub open spec fn pending_at(object: ObjectView, property: Property) -> Seq<Seq<char>> {
    match property {
        Property::Actor => links_pending(object.actor),
        Property::Attachment => links_pending(object.attachment),
        Property::AttributedTo => links_pending(object.attributed_to),
        Property::Audience => links_pending(object.audience),
        Property::Bcc => links_pending(object.bcc),
        Property::Bto => links_pending(object.bto),
        Property::Cc => links_pending(object.cc),
        Property::Context => links_pending(object.context),
        Property::Current => link_pending(object.current),
        Property::First => link_pending(object.first),
        Property::Generator => links_pending(object.generator),
        Property::Icon => links_pending(object.icon),
        Property::Image => links_pending(object.image),
        Property::InReplyTo => links_pending(object.in_reply_to),
        Property::Instrument => links_pending(object.instrument),
        Property::Last => link_pending(object.last),
        Property::Location => links_pending(object.location),
        Property::Items => links_pending(object.items),
        Property::OrderedItems => links_pending(object.ordered_items),
        Property::OneOf => links_pending(object.one_of),
        Property::AnyOf => links_pending(object.any_of),
        Property::Origin => links_pending(object.origin),
        Property::Next => link_pending(object.next),
        Property::Object => links_pending(object.object),
        Property::Prev => link_pending(object.prev),
        Property::Preview => links_pending(object.preview),
        Property::Result => links_pending(object.result),
        Property::Replies => links_pending(object.replies),
        Property::Tag => links_pending(object.tag),
        Property::Target => links_pending(object.target),
        Property::To => links_pending(object.to),
        Property::Url => links_pending(object.url),
        Property::PartOf => link_pending(object.part_of),
        Property::Subject => link_pending(object.subject),
        Property::Relationship => links_pending(object.relationship),
        Property::FormerType => links_pending(object.former_type),
        Property::Inbox => link_pending(object.inbox),
        Property::Outbox => link_pending(object.outbox),
        Property::Following => link_pending(object.following),
        Property::Followers => link_pending(object.followers),
        Property::Liked => link_pending(object.liked),
        Property::Streams => links_pending(object.streams),
        _ => Seq::empty(),
    }
}

/// An object after the outcomes of the fetches are applied to the links of
/// one property.
pub open spec fn settled_at(object: ObjectView, property: Property, outcomes: Seq<OutcomeView>) -> ObjectView {
    match property {
        Property::Actor => ObjectView { actor: links_settled(object.actor, outcomes), ..object },
        Property::Attachment => ObjectView { attachment: links_settled(object.attachment, outcomes), ..object },
        Property::AttributedTo => ObjectView { attributed_to: links_settled(object.attributed_to, outcomes), ..object },
        Property::Audience => ObjectView { audience: links_settled(object.audience, outcomes), ..object },
        Property::Bcc => ObjectView { bcc: links_settled(object.bcc, outcomes), ..object },
        Property::Bto => ObjectView { bto: links_settled(object.bto, outcomes), ..object },
        Property::Cc => ObjectView { cc: links_settled(object.cc, outcomes), ..object },
        Property::Context => ObjectView { context: links_settled(object.context, outcomes), ..object },
        Property::Current => ObjectView { current: link_settled(object.current, outcomes), ..object },
        Property::First => ObjectView { first: link_settled(object.first, outcomes), ..object },
        Property::Generator => ObjectView { generator: links_settled(object.generator, outcomes), ..object },
        Property::Icon => ObjectView { icon: links_settled(object.icon, outcomes), ..object },
        Property::Image => ObjectView { image: links_settled(object.image, outcomes), ..object },
        Property::InReplyTo => ObjectView { in_reply_to: links_settled(object.in_reply_to, outcomes), ..object },
        Property::Instrument => ObjectView { instrument: links_settled(object.instrument, outcomes), ..object },
        Property::Last => ObjectView { last: link_settled(object.last, outcomes), ..object },
        Property::Location => ObjectView { location: links_settled(object.location, outcomes), ..object },
        Property::Items => ObjectView { items: links_settled(object.items, outcomes), ..object },
        Property::OrderedItems => ObjectView { ordered_items: links_settled(object.ordered_items, outcomes), ..object },
        Property::OneOf => ObjectView { one_of: links_settled(object.one_of, outcomes), ..object },
        Property::AnyOf => ObjectView { any_of: links_settled(object.any_of, outcomes), ..object },
        Property::Origin => ObjectView { origin: links_settled(object.origin, outcomes), ..object },
        Property::Next => ObjectView { next: link_settled(object.next, outcomes), ..object },
        Property::Object => ObjectView { object: links_settled(object.object, outcomes), ..object },
        Property::Prev => ObjectView { prev: link_settled(object.prev, outcomes), ..object },
        Property::Preview => ObjectView { preview: links_settled(object.preview, outcomes), ..object },
        Property::Result => ObjectView { result: links_settled(object.result, outcomes), ..object },
        Property::Replies => ObjectView { replies: links_settled(object.replies, outcomes), ..object },
        Property::Tag => ObjectView { tag: links_settled(object.tag, outcomes), ..object },
        Property::Target => ObjectView { target: links_settled(object.target, outcomes), ..object },
        Property::To => ObjectView { to: links_settled(object.to, outcomes), ..object },
        Property::Url => ObjectView { url: links_settled(object.url, outcomes), ..object },
        Property::PartOf => ObjectView { part_of: link_settled(object.part_of, outcomes), ..object },
        Property::Subject => ObjectView { subject: link_settled(object.subject, outcomes), ..object },
        Property::Relationship => ObjectView { relationship: links_settled(object.relationship, outcomes), ..object },
        Property::FormerType => ObjectView { former_type: links_settled(object.former_type, outcomes), ..object },
        Property::Inbox => ObjectView { inbox: link_settled(object.inbox, outcomes), ..object },
        Property::Outbox => ObjectView { outbox: link_settled(object.outbox, outcomes), ..object },
        Property::Following => ObjectView { following: link_settled(object.following, outcomes), ..object },
        Property::Followers => ObjectView { followers: link_settled(object.followers, outcomes), ..object },
        Property::Liked => ObjectView { liked: link_settled(object.liked, outcomes), ..object },
        Property::Streams => ObjectView { streams: links_settled(object.streams, outcomes), ..object },
        _ => object,
    }
}

/// Resolving a property of which no link awaits a fetch changes nothing of
/// the object and succeeds, whatever outcomes are handed in.
pub proof fn lemma_resolved_property_stays(object: ObjectView, property: Property, outcomes: Seq<OutcomeView>)
    requires
        pending_at(object, property).len() == 0,
    ensures
        settled_at(object, property, outcomes) == object,
        verdict(outcomes, pending_at(object, property).len()) == Ok::<(), Error>(()),
{
    match property {
        Property::Actor => {
            lemma_resolved_links_stay(object.actor, outcomes);
        },
        Property::Attachment => {
            lemma_resolved_links_stay(object.attachment, outcomes);
        },
        Property::AttributedTo => {
            lemma_resolved_links_stay(object.attributed_to, outcomes);
        },
        Property::Audience => {
            lemma_resolved_links_stay(object.audience, outcomes);
        },
        Property::Bcc => {
            lemma_resolved_links_stay(object.bcc, outcomes);
        },
        Property::Bto => {
            lemma_resolved_links_stay(object.bto, outcomes);
        },
        Property::Cc => {
            lemma_resolved_links_stay(object.cc, outcomes);
        },
        Property::Context => {
            lemma_resolved_links_stay(object.context, outcomes);
        },
        Property::Current => {
            lemma_resolved_link_stays(object.current, outcomes);
        },
        Property::First => {
            lemma_resolved_link_stays(object.first, outcomes);
        },
        Property::Generator => {
            lemma_resolved_links_stay(object.generator, outcomes);
        },
        Property::Icon => {
            lemma_resolved_links_stay(object.icon, outcomes);
        },
        Property::Image => {
            lemma_resolved_links_stay(object.image, outcomes);
        },
        Property::InReplyTo => {
            lemma_resolved_links_stay(object.in_reply_to, outcomes);
        },
        Property::Instrument => {
            lemma_resolved_links_stay(object.instrument, outcomes);
        },
        Property::Last => {
            lemma_resolved_link_stays(object.last, outcomes);
        },
        Property::Location => {
            lemma_resolved_links_stay(object.location, outcomes);
        },
        Property::Items => {
            lemma_resolved_links_stay(object.items, outcomes);
        },
        Property::OrderedItems => {
            lemma_resolved_links_stay(object.ordered_items, outcomes);
        },
        Property::OneOf => {
            lemma_resolved_links_stay(object.one_of, outcomes);
        },
        Property::AnyOf => {
            lemma_resolved_links_stay(object.any_of, outcomes);
        },
        Property::Origin => {
            lemma_resolved_links_stay(object.origin, outcomes);
        },
        Property::Next => {
            lemma_resolved_link_stays(object.next, outcomes);
        },
        Property::Object => {
            lemma_resolved_links_stay(object.object, outcomes);
        },
        Property::Prev => {
            lemma_resolved_link_stays(object.prev, outcomes);
        },
        Property::Preview => {
            lemma_resolved_links_stay(object.preview, outcomes);
        },
        Property::Result => {
            lemma_resolved_links_stay(object.result, outcomes);
        },
        Property::Replies => {
            lemma_resolved_links_stay(object.replies, outcomes);
        },
        Property::Tag => {
            lemma_resolved_links_stay(object.tag, outcomes);
        },
        Property::Target => {
            lemma_resolved_links_stay(object.target, outcomes);
        },
        Property::To => {
            lemma_resolved_links_stay(object.to, outcomes);
        },
        Property::Url => {
            lemma_resolved_links_stay(object.url, outcomes);
        },
        Property::PartOf => {
            lemma_resolved_link_stays(object.part_of, outcomes);
        },
        Property::Subject => {
            lemma_resolved_link_stays(object.subject, outcomes);
        },
        Property::Relationship => {
            lemma_resolved_links_stay(object.relationship, outcomes);
        },
        Property::FormerType => {
            lemma_resolved_links_stay(object.former_type, outcomes);
        },
        Property::Inbox => {
            lemma_resolved_link_stays(object.inbox, outcomes);
        },
        Property::Outbox => {
            lemma_resolved_link_stays(object.outbox, outcomes);
        },
        Property::Following => {
            lemma_resolved_link_stays(object.following, outcomes);
        },
        Property::Followers => {
            lemma_resolved_link_stays(object.followers, outcomes);
        },
        Property::Liked => {
            lemma_resolved_link_stays(object.liked, outcomes);
        },
        Property::Streams => {
            lemma_resolved_links_stay(object.streams, outcomes);
        },
        _ => {},
    }
}

/// With a single fetched object for outcome, the first URL of the property
/// is resolved and every other URL of it still awaits its fetch.
pub proof fn lemma_one_fetched(object: ObjectView, property: Property, fetched: ObjectView)
    requires
        pending_at(object, property).len() > 0,
    ensures
        pending_at(
            settled_at(object, property, seq![Ok::<ObjectView, FetchError>(fetched)]),
            property,
        ) == pending_at(object, property).skip(1),
{
    match property {
        Property::Actor => {
            lemma_one_fetched_links(object.actor, fetched);
        },
        Property::Attachment => {
            lemma_one_fetched_links(object.attachment, fetched);
        },
        Property::AttributedTo => {
            lemma_one_fetched_links(object.attributed_to, fetched);
        },
        Property::Audience => {
            lemma_one_fetched_links(object.audience, fetched);
        },
        Property::Bcc => {
            lemma_one_fetched_links(object.bcc, fetched);
        },
        Property::Bto => {
            lemma_one_fetched_links(object.bto, fetched);
        },
        Property::Cc => {
            lemma_one_fetched_links(object.cc, fetched);
        },
        Property::Context => {
            lemma_one_fetched_links(object.context, fetched);
        },
        Property::Current => {
            lemma_one_fetched_link(object.current, fetched);
        },
        Property::First => {
            lemma_one_fetched_link(object.first, fetched);
        },
        Property::Generator => {
            lemma_one_fetched_links(object.generator, fetched);
        },
        Property::Icon => {
            lemma_one_fetched_links(object.icon, fetched);
        },
        Property::Image => {
            lemma_one_fetched_links(object.image, fetched);
        },
        Property::InReplyTo => {
            lemma_one_fetched_links(object.in_reply_to, fetched);
        },
        Property::Instrument => {
            lemma_one_fetched_links(object.instrument, fetched);
        },
        Property::Last => {
            lemma_one_fetched_link(object.last, fetched);
        },
        Property::Location => {
            lemma_one_fetched_links(object.location, fetched);
        },
        Property::Items => {
            lemma_one_fetched_links(object.items, fetched);
        },
        Property::OrderedItems => {
            lemma_one_fetched_links(object.ordered_items, fetched);
        },
        Property::OneOf => {
            lemma_one_fetched_links(object.one_of, fetched);
        },
        Property::AnyOf => {
            lemma_one_fetched_links(object.any_of, fetched);
        },
        Property::Origin => {
            lemma_one_fetched_links(object.origin, fetched);
        },
        Property::Next => {
            lemma_one_fetched_link(object.next, fetched);
        },
        Property::Object => {
            lemma_one_fetched_links(object.object, fetched);
        },
        Property::Prev => {
            lemma_one_fetched_link(object.prev, fetched);
        },
        Property::Preview => {
            lemma_one_fetched_links(object.preview, fetched);
        },
        Property::Result => {
            lemma_one_fetched_links(object.result, fetched);
        },
        Property::Replies => {
            lemma_one_fetched_links(object.replies, fetched);
        },
        Property::Tag => {
            lemma_one_fetched_links(object.tag, fetched);
        },
        Property::Target => {
            lemma_one_fetched_links(object.target, fetched);
        },
        Property::To => {
            lemma_one_fetched_links(object.to, fetched);
        },
        Property::Url => {
            lemma_one_fetched_links(object.url, fetched);
        },
        Property::PartOf => {
            lemma_one_fetched_link(object.part_of, fetched);
        },
        Property::Subject => {
            lemma_one_fetched_link(object.subject, fetched);
        },
        Property::Relationship => {
            lemma_one_fetched_links(object.relationship, fetched);
        },
        Property::FormerType => {
            lemma_one_fetched_links(object.former_type, fetched);
        },
        Property::Inbox => {
            lemma_one_fetched_link(object.inbox, fetched);
        },
        Property::Outbox => {
            lemma_one_fetched_link(object.outbox, fetched);
        },
        Property::Following => {
            lemma_one_fetched_link(object.following, fetched);
        },
        Property::Followers => {
            lemma_one_fetched_link(object.followers, fetched);
        },
        Property::Liked => {
            lemma_one_fetched_link(object.liked, fetched);
        },
        Property::Streams => {
            lemma_one_fetched_links(object.streams, fetched);
        },
        _ => {},
    }
}

/// What resolving a property gives is the object with that one property
/// replaced.
pub proof fn lemma_settled_takes(object: ObjectView, property: Property, outcomes: Seq<OutcomeView>)
    ensures
        settled_at(object, property, outcomes) == take_property(
            object,
            property,
            settled_at(object, property, outcomes),
        ),
{
    match property {
        Property::Actor => {},
        Property::Attachment => {},
        Property::AttributedTo => {},
        Property::Audience => {},
        Property::Bcc => {},
        Property::Bto => {},
        Property::Cc => {},
        Property::Context => {},
        Property::Current => {},
        Property::First => {},
        Property::Generator => {},
        Property::Icon => {},
        Property::Image => {},
        Property::InReplyTo => {},
        Property::Instrument => {},
        Property::Last => {},
        Property::Location => {},
        Property::Items => {},
        Property::OrderedItems => {},
        Property::OneOf => {},
        Property::AnyOf => {},
        Property::Origin => {},
        Property::Next => {},
        Property::Object => {},
        Property::Prev => {},
        Property::Preview => {},
        Property::Result => {},
        Property::Replies => {},
        Property::Tag => {},
        Property::Target => {},
        Property::To => {},
        Property::Url => {},
        Property::PartOf => {},
        Property::Subject => {},
        Property::Relationship => {},
        Property::FormerType => {},
        Property::Inbox => {},
        Property::Outbox => {},
        Property::Following => {},
        Property::Followers => {},
        Property::Liked => {},
        Property::Streams => {},
        _ => {
            lemma_take_same(object, property, object);
        },
    }
}

/// The property that was resolved is canonical when it was before and the
/// objects that were fetched are.
pub proof fn lemma_settled_property_wf(object: ObjectView, property: Property, outcomes: Seq<OutcomeView>)
    requires
        property_wf(object, property),
        outcomes_wf(outcomes),
    ensures
        property_wf(settled_at(object, property, outcomes), property),
{
    match property {
        Property::Actor => {
            lemma_links_settled_wf(object.actor, outcomes);
        },
        Property::Attachment => {
            lemma_links_settled_wf(object.attachment, outcomes);
        },
        Property::AttributedTo => {
            lemma_links_settled_wf(object.attributed_to, outcomes);
        },
        Property::Audience => {
            lemma_links_settled_wf(object.audience, outcomes);
        },
        Property::Bcc => {
            lemma_links_settled_wf(object.bcc, outcomes);
        },
        Property::Bto => {
            lemma_links_settled_wf(object.bto, outcomes);
        },
        Property::Cc => {
            lemma_links_settled_wf(object.cc, outcomes);
        },
        Property::Context => {
            lemma_links_settled_wf(object.context, outcomes);
        },
        Property::Current => {
            lemma_link_settled_wf(object.current, outcomes);
        },
        Property::First => {
            lemma_link_settled_wf(object.first, outcomes);
        },
        Property::Generator => {
            lemma_links_settled_wf(object.generator, outcomes);
        },
        Property::Icon => {
            lemma_links_settled_wf(object.icon, outcomes);
        },
        Property::Image => {
            lemma_links_settled_wf(object.image, outcomes);
        },
        Property::InReplyTo => {
            lemma_links_settled_wf(object.in_reply_to, outcomes);
        },
        Property::Instrument => {
            lemma_links_settled_wf(object.instrument, outcomes);
        },
        Property::Last => {
            lemma_link_settled_wf(object.last, outcomes);
        },
        Property::Location => {
            lemma_links_settled_wf(object.location, outcomes);
        },
        Property::Items => {
            lemma_links_settled_wf(object.items, outcomes);
        },
        Property::OrderedItems => {
            lemma_links_settled_wf(object.ordered_items, outcomes);
        },
        Property::OneOf => {
            lemma_links_settled_wf(object.one_of, outcomes);
        },
        Property::AnyOf => {
            lemma_links_settled_wf(object.any_of, outcomes);
        },
        Property::Origin => {
            lemma_links_settled_wf(object.origin, outcomes);
        },
        Property::Next => {
            lemma_link_settled_wf(object.next, outcomes);
        },
        Property::Object => {
            lemma_links_settled_wf(object.object, outcomes);
        },
        Property::Prev => {
            lemma_link_settled_wf(object.prev, outcomes);
        },
        Property::Preview => {
            lemma_links_settled_wf(object.preview, outcomes);
        },
        Property::Result => {
            lemma_links_settled_wf(object.result, outcomes);
        },
        Property::Replies => {
            lemma_links_settled_wf(object.replies, outcomes);
        },
        Property::Tag => {
            lemma_links_settled_wf(object.tag, outcomes);
        },
        Property::Target => {
            lemma_links_settled_wf(object.target, outcomes);
        },
        Property::To => {
            lemma_links_settled_wf(object.to, outcomes);
        },
        Property::Url => {
            lemma_links_settled_wf(object.url, outcomes);
        },
        Property::PartOf => {
            lemma_link_settled_wf(object.part_of, outcomes);
        },
        Property::Subject => {
            lemma_link_settled_wf(object.subject, outcomes);
        },
        Property::Relationship => {
            lemma_links_settled_wf(object.relationship, outcomes);
        },
        Property::FormerType => {
            lemma_links_settled_wf(object.former_type, outcomes);
        },
        Property::Inbox => {
            lemma_link_settled_wf(object.inbox, outcomes);
        },
        Property::Outbox => {
            lemma_link_settled_wf(object.outbox, outcomes);
        },
        Property::Following => {
            lemma_link_settled_wf(object.following, outcomes);
        },
        Property::Followers => {
            lemma_link_settled_wf(object.followers, outcomes);
        },
        Property::Liked => {
            lemma_link_settled_wf(object.liked, outcomes);
        },
        Property::Streams => {
            lemma_links_settled_wf(object.streams, outcomes);
        },
        _ => {},
    }
}

/// A canonical object stays canonical when the links of one property are
/// resolved and the objects that were fetched are canonical.
pub proof fn lemma_settled_wf(object: ObjectView, property: Property, outcomes: Seq<OutcomeView>)
    requires
        object_wf(object),
        outcomes_wf(outcomes),
    ensures
        object_wf(settled_at(object, property, outcomes)),
{
    let settled = settled_at(object, property, outcomes);
    lemma_settled_takes(object, property, outcomes);
    assert forall|other: Property| #[trigger] property_wf(settled, other) by {
        Property::lemma_places();
        lemma_properties_wf(object, PROPERTY_COUNT as nat, other);
        if other == property {
            lemma_settled_property_wf(object, property, outcomes);
        } else {
            lemma_take_frame(object, property, settled, other);
            lemma_wf_same(settled, object, other);
        }
    }
    if property == Property::Type {
        lemma_take_frame(object, property, settled, Property::Id);
    } else {
        lemma_take_frame(object, property, settled, Property::Type);
    }
    lemma_all_properties_wf(settled, PROPERTY_COUNT as nat);
}

impl Object {
    /// The URLs that the links of a property await a fetch of, in order.
    /// Links that hold an object await none, and neither does a property
    /// that holds no links.
    pub fn pending(&self, property: Property) -> (urls: Vec<Url>)
        ensures
            urls_view(urls@) == pending_at(self@, property),
    {
        match property {
            Property::Actor => pending_links(&self.actor),
            Property::Attachment => pending_links(&self.attachment),
            Property::AttributedTo => pending_links(&self.attributed_to),
            Property::Audience => pending_links(&self.audience),
            Property::Bcc => pending_links(&self.bcc),
            Property::Bto => pending_links(&self.bto),
            Property::Cc => pending_links(&self.cc),
            Property::Context => pending_links(&self.context),
            Property::Current => pending_link(&self.current),
            Property::First => pending_link(&self.first),
            Property::Generator => pending_links(&self.generator),
            Property::Icon => pending_links(&self.icon),
            Property::Image => pending_links(&self.image),
            Property::InReplyTo => pending_links(&self.in_reply_to),
            Property::Instrument => pending_links(&self.instrument),
            Property::Last => pending_link(&self.last),
            Property::Location => pending_links(&self.location),
            Property::Items => pending_links(&self.items),
            Property::OrderedItems => pending_links(&self.ordered_items),
            Property::OneOf => pending_links(&self.one_of),
            Property::AnyOf => pending_links(&self.any_of),
            Property::Origin => pending_links(&self.origin),
            Property::Next => pending_link(&self.next),
            Property::Object => pending_links(&self.object),
            Property::Prev => pending_link(&self.prev),
            Property::Preview => pending_links(&self.preview),
            Property::Result => pending_links(&self.result),
            Property::Replies => pending_links(&self.replies),
            Property::Tag => pending_links(&self.tag),
            Property::Target => pending_links(&self.target),
            Property::To => pending_links(&self.to),
            Property::Url => pending_links(&self.url),
            Property::PartOf => pending_link(&self.part_of),
            Property::Subject => pending_link(&self.subject),
            Property::Relationship => pending_links(&self.relationship),
            Property::FormerType => pending_links(&self.former_type),
            Property::Inbox => pending_link(&self.inbox),
            Property::Outbox => pending_link(&self.outbox),
            Property::Following => pending_link(&self.following),
            Property::Followers => pending_link(&self.followers),
            Property::Liked => pending_link(&self.liked),
            Property::Streams => pending_links(&self.streams),
            _ => {
                let urls: Vec<Url> = Vec::new();
                assert(urls_view(urls@) =~= Seq::empty());
                urls
            },
        }
    }

    /// Applies the outcomes of the fetches to the links of one property, the
    /// first outcome to the first URL and so on: a URL whose outcome is an
    /// object becomes that object, every other link and every other
    /// property stays as it is. Returns the first failure among the
    /// outcomes applied.
    pub fn resolve_property(&mut self, property: Property, outcomes: Vec<Outcome>) -> (r: Result<(), Error>)
        ensures
            final(self)@ == settled_at(old(self)@, property, outcomes_view(outcomes@)),
            r == verdict(outcomes_view(outcomes@), pending_at(old(self)@, property).len()),
            object_wf(old(self)@) && outcomes_wf(outcomes_view(outcomes@)) ==> object_wf(final(self)@),
    {
        proof {
            if object_wf(self@) && outcomes_wf(outcomes_view(outcomes@)) {
                lemma_settled_wf(self@, property, outcomes_view(outcomes@));
            }
        }
        match property {
            Property::Actor => resolve_links(&mut self.actor, outcomes),
            Property::Attachment => resolve_links(&mut self.attachment, outcomes),
            Property::AttributedTo => resolve_links(&mut self.attributed_to, outcomes),
            Property::Audience => resolve_links(&mut self.audience, outcomes),
            Property::Bcc => resolve_links(&mut self.bcc, outcomes),
            Property::Bto => resolve_links(&mut self.bto, outcomes),
            Property::Cc => resolve_links(&mut self.cc, outcomes),
            Property::Context => resolve_links(&mut self.context, outcomes),
            Property::Current => resolve_link(&mut self.current, outcomes),
            Property::First => resolve_link(&mut self.first, outcomes),
            Property::Generator => resolve_links(&mut self.generator, outcomes),
            Property::Icon => resolve_links(&mut self.icon, outcomes),
            Property::Image => resolve_links(&mut self.image, outcomes),
            Property::InReplyTo => resolve_links(&mut self.in_reply_to, outcomes),
            Property::Instrument => resolve_links(&mut self.instrument, outcomes),
            Property::Last => resolve_link(&mut self.last, outcomes),
            Property::Location => resolve_links(&mut self.location, outcomes),
            Property::Items => resolve_links(&mut self.items, outcomes),
            Property::OrderedItems => resolve_links(&mut self.ordered_items, outcomes),
            Property::OneOf => resolve_links(&mut self.one_of, outcomes),
            Property::AnyOf => resolve_links(&mut self.any_of, outcomes),
            Property::Origin => resolve_links(&mut self.origin, outcomes),
            Property::Next => resolve_link(&mut self.next, outcomes),
            Property::Object => resolve_links(&mut self.object, outcomes),
            Property::Prev => resolve_link(&mut self.prev, outcomes),
            Property::Preview => resolve_links(&mut self.preview, outcomes),
            Property::Result => resolve_links(&mut self.result, outcomes),
            Property::Replies => resolve_links(&mut self.replies, outcomes),
            Property::Tag => resolve_links(&mut self.tag, outcomes),
            Property::Target => resolve_links(&mut self.target, outcomes),
            Property::To => resolve_links(&mut self.to, outcomes),
            Property::Url => resolve_links(&mut self.url, outcomes),
            Property::PartOf => resolve_link(&mut self.part_of, outcomes),
            Property::Subject => resolve_link(&mut self.subject, outcomes),
            Property::Relationship => resolve_links(&mut self.relationship, outcomes),
            Property::FormerType => resolve_links(&mut self.former_type, outcomes),
            Property::Inbox => resolve_link(&mut self.inbox, outcomes),
            Property::Outbox => resolve_link(&mut self.outbox, outcomes),
            Property::Following => resolve_link(&mut self.following, outcomes),
            Property::Followers => resolve_link(&mut self.followers, outcomes),
            Property::Liked => resolve_link(&mut self.liked, outcomes),
            Property::Streams => resolve_links(&mut self.streams, outcomes),
            _ => Ok(()),
        }
    }
}

} // verus!
