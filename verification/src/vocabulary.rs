//! The closed vocabularies: the types of objects and the relations of links.

use crate::text::outline;
use crate::text::same_text;
use vstd::prelude::*;

verus! {

/// The closed set of ActivityStreams type names.
#[derive(Debug, Clone, Copy, PartialEq, Eq, Structural)]
pub enum ActivityStreamsType {
    Object,
    Link,
    Collection,
    OrderedCollection,
    CollectionPage,
    OrderedCollectionPage,
    Activity,
    Add,
    Announce,
    Undo,
    Update,
    View,
    Block,
    Create,
    Delete,
    Dislike,
    Flag,
    Follow,
    Ignore,
    Join,
    Leave,
    Like,
    Listen,
    Move,
    Read,
    Remove,
    Offer,
    Invite,
    Reject,
    TentativeReject,
    Accept,
    TentativeAccept,
    Arrive,
    IntransitiveActivity,
    Travel,
    Question,
    Actor,
    Application,
    Group,
    Organization,
    Person,
    Service,
    Article,
    Audio,
    Document,
    Event,
    Image,
    Note,
    Page,
    Place,
    Profile,
    Relationship,
    Tombstone,
    Video,
    Mention,
}

impl ActivityStreamsType {
    /// The name under which this type appears in a document.
    pub open spec fn tag_spec(self) -> Seq<char> {
        match self {
            ActivityStreamsType::Object => "Object"@,
            ActivityStreamsType::Link => "Link"@,
            ActivityStreamsType::Collection => "Collection"@,
            ActivityStreamsType::OrderedCollection => "OrderedCollection"@,
            ActivityStreamsType::CollectionPage => "CollectionPage"@,
            ActivityStreamsType::OrderedCollectionPage => "OrderedCollectionPage"@,
            ActivityStreamsType::Activity => "Activity"@,
            ActivityStreamsType::Add => "Add"@,
            ActivityStreamsType::Announce => "Announce"@,
            ActivityStreamsType::Undo => "Undo"@,
            ActivityStreamsType::Update => "Update"@,
            ActivityStreamsType::View => "View"@,
            ActivityStreamsType::Block => "Block"@,
            ActivityStreamsType::Create => "Create"@,
            ActivityStreamsType::Delete => "Delete"@,
            ActivityStreamsType::Dislike => "Dislike"@,
            ActivityStreamsType::Flag => "Flag"@,
            ActivityStreamsType::Follow => "Follow"@,
            ActivityStreamsType::Ignore => "Ignore"@,
            ActivityStreamsType::Join => "Join"@,
            ActivityStreamsType::Leave => "Leave"@,
            ActivityStreamsType::Like => "Like"@,
            ActivityStreamsType::Listen => "Listen"@,
            ActivityStreamsType::Move => "Move"@,
            ActivityStreamsType::Read => "Read"@,
            ActivityStreamsType::Remove => "Remove"@,
            ActivityStreamsType::Offer => "Offer"@,
            ActivityStreamsType::Invite => "Invite"@,
            ActivityStreamsType::Reject => "Reject"@,
            ActivityStreamsType::TentativeReject => "TentativeReject"@,
            ActivityStreamsType::Accept => "Accept"@,
            ActivityStreamsType::TentativeAccept => "TentativeAccept"@,
            ActivityStreamsType::Arrive => "Arrive"@,
            ActivityStreamsType::IntransitiveActivity => "IntransitiveActivity"@,
            ActivityStreamsType::Travel => "Travel"@,
            ActivityStreamsType::Question => "Question"@,
            ActivityStreamsType::Actor => "Actor"@,
            ActivityStreamsType::Application => "Application"@,
            ActivityStreamsType::Group => "Group"@,
            ActivityStreamsType::Organization => "Organization"@,
            ActivityStreamsType::Person => "Person"@,
            ActivityStreamsType::Service => "Service"@,
            ActivityStreamsType::Article => "Article"@,
            ActivityStreamsType::Audio => "Audio"@,
            ActivityStreamsType::Document => "Document"@,
            ActivityStreamsType::Event => "Event"@,
            ActivityStreamsType::Image => "Image"@,
            ActivityStreamsType::Note => "Note"@,
            ActivityStreamsType::Page => "Page"@,
            ActivityStreamsType::Place => "Place"@,
            ActivityStreamsType::Profile => "Profile"@,
            ActivityStreamsType::Relationship => "Relationship"@,
            ActivityStreamsType::Tombstone => "Tombstone"@,
            ActivityStreamsType::Video => "Video"@,
            ActivityStreamsType::Mention => "Mention"@,
        }
    }

    /// The value that a tag names, if any.
    pub open spec fn from_tag_spec(tag: Seq<char>) -> Option<ActivityStreamsType> {
        if tag == "Object"@ {
            Some(ActivityStreamsType::Object)
        } else if tag == "Link"@ {
            Some(ActivityStreamsType::Link)
        } else if tag == "Collection"@ {
            Some(ActivityStreamsType::Collection)
        } else if tag == "OrderedCollection"@ {
            Some(ActivityStreamsType::OrderedCollection)
        } else if tag == "CollectionPage"@ {
            Some(ActivityStreamsType::CollectionPage)
        } else if tag == "OrderedCollectionPage"@ {
            Some(ActivityStreamsType::OrderedCollectionPage)
        } else if tag == "Activity"@ {
            Some(ActivityStreamsType::Activity)
        } else if tag == "Add"@ {
            Some(ActivityStreamsType::Add)
        } else if tag == "Announce"@ {
            Some(ActivityStreamsType::Announce)
        } else if tag == "Undo"@ {
            Some(ActivityStreamsType::Undo)
        } else if tag == "Update"@ {
            Some(ActivityStreamsType::Update)
        } else if tag == "View"@ {
            Some(ActivityStreamsType::View)
        } else if tag == "Block"@ {
            Some(ActivityStreamsType::Block)
        } else if tag == "Create"@ {
            Some(ActivityStreamsType::Create)
        } else if tag == "Delete"@ {
            Some(ActivityStreamsType::Delete)
        } else if tag == "Dislike"@ {
            Some(ActivityStreamsType::Dislike)
        } else if tag == "Flag"@ {
            Some(ActivityStreamsType::Flag)
        } else if tag == "Follow"@ {
            Some(ActivityStreamsType::Follow)
        } else if tag == "Ignore"@ {
            Some(ActivityStreamsType::Ignore)
        } else if tag == "Join"@ {
            Some(ActivityStreamsType::Join)
        } else if tag == "Leave"@ {
            Some(ActivityStreamsType::Leave)
        } else if tag == "Like"@ {
            Some(ActivityStreamsType::Like)
        } else if tag == "Listen"@ {
            Some(ActivityStreamsType::Listen)
        } else if tag == "Move"@ {
            Some(ActivityStreamsType::Move)
        } else if tag == "Read"@ {
            Some(ActivityStreamsType::Read)
        } else if tag == "Remove"@ {
            Some(ActivityStreamsType::Remove)
        } else if tag == "Offer"@ {
            Some(ActivityStreamsType::Offer)
        } else if tag == "Invite"@ {
            Some(ActivityStreamsType::Invite)
        } else if tag == "Reject"@ {
            Some(ActivityStreamsType::Reject)
        } else if tag == "TentativeReject"@ {
            Some(ActivityStreamsType::TentativeReject)
        } else if tag == "Accept"@ {
            Some(ActivityStreamsType::Accept)
        } else if tag == "TentativeAccept"@ {
            Some(ActivityStreamsType::TentativeAccept)
        } else if tag == "Arrive"@ {
            Some(ActivityStreamsType::Arrive)
        } else if tag == "IntransitiveActivity"@ {
            Some(ActivityStreamsType::IntransitiveActivity)
        } else if tag == "Travel"@ {
            Some(ActivityStreamsType::Travel)
        } else if tag == "Question"@ {
            Some(ActivityStreamsType::Question)
        } else if tag == "Actor"@ {
            Some(ActivityStreamsType::Actor)
        } else if tag == "Application"@ {
            Some(ActivityStreamsType::Application)
        } else if tag == "Group"@ {
            Some(ActivityStreamsType::Group)
        } else if tag == "Organization"@ {
            Some(ActivityStreamsType::Organization)
        } else if tag == "Person"@ {
            Some(ActivityStreamsType::Person)
        } else if tag == "Service"@ {
            Some(ActivityStreamsType::Service)
        } else if tag == "Article"@ {
            Some(ActivityStreamsType::Article)
        } else if tag == "Audio"@ {
            Some(ActivityStreamsType::Audio)
        } else if tag == "Document"@ {
            Some(ActivityStreamsType::Document)
        } else if tag == "Event"@ {
            Some(ActivityStreamsType::Event)
        } else if tag == "Image"@ {
            Some(ActivityStreamsType::Image)
        } else if tag == "Note"@ {
            Some(ActivityStreamsType::Note)
        } else if tag == "Page"@ {
            Some(ActivityStreamsType::Page)
        } else if tag == "Place"@ {
            Some(ActivityStreamsType::Place)
        } else if tag == "Profile"@ {
            Some(ActivityStreamsType::Profile)
        } else if tag == "Relationship"@ {
            Some(ActivityStreamsType::Relationship)
        } else if tag == "Tombstone"@ {
            Some(ActivityStreamsType::Tombstone)
        } else if tag == "Video"@ {
            Some(ActivityStreamsType::Video)
        } else if tag == "Mention"@ {
            Some(ActivityStreamsType::Mention)
        } else {
            None
        }
    }

    /// The name under which this type appears in a document.
    pub fn tag(self) -> (r: &'static str)
        ensures
            r@ == self.tag_spec(),
    {
        match self {
            ActivityStreamsType::Object => "Object",
            ActivityStreamsType::Link => "Link",
            ActivityStreamsType::Collection => "Collection",
            ActivityStreamsType::OrderedCollection => "OrderedCollection",
            ActivityStreamsType::CollectionPage => "CollectionPage",
            ActivityStreamsType::OrderedCollectionPage => "OrderedCollectionPage",
            ActivityStreamsType::Activity => "Activity",
            ActivityStreamsType::Add => "Add",
            ActivityStreamsType::Announce => "Announce",
            ActivityStreamsType::Undo => "Undo",
            ActivityStreamsType::Update => "Update",
            ActivityStreamsType::View => "View",
            ActivityStreamsType::Block => "Block",
            ActivityStreamsType::Create => "Create",
            ActivityStreamsType::Delete => "Delete",
            ActivityStreamsType::Dislike => "Dislike",
            ActivityStreamsType::Flag => "Flag",
            ActivityStreamsType::Follow => "Follow",
            ActivityStreamsType::Ignore => "Ignore",
            ActivityStreamsType::Join => "Join",
            ActivityStreamsType::Leave => "Leave",
            ActivityStreamsType::Like => "Like",
            ActivityStreamsType::Listen => "Listen",
            ActivityStreamsType::Move => "Move",
            ActivityStreamsType::Read => "Read",
            ActivityStreamsType::Remove => "Remove",
            ActivityStreamsType::Offer => "Offer",
            ActivityStreamsType::Invite => "Invite",
            ActivityStreamsType::Reject => "Reject",
            ActivityStreamsType::TentativeReject => "TentativeReject",
            ActivityStreamsType::Accept => "Accept",
            ActivityStreamsType::TentativeAccept => "TentativeAccept",
            ActivityStreamsType::Arrive => "Arrive",
            ActivityStreamsType::IntransitiveActivity => "IntransitiveActivity",
            ActivityStreamsType::Travel => "Travel",
            ActivityStreamsType::Question => "Question",
            ActivityStreamsType::Actor => "Actor",
            ActivityStreamsType::Application => "Application",
            ActivityStreamsType::Group => "Group",
            ActivityStreamsType::Organization => "Organization",
            ActivityStreamsType::Person => "Person",
            ActivityStreamsType::Service => "Service",
            ActivityStreamsType::Article => "Article",
            ActivityStreamsType::Audio => "Audio",
            ActivityStreamsType::Document => "Document",
            ActivityStreamsType::Event => "Event",
            ActivityStreamsType::Image => "Image",
            ActivityStreamsType::Note => "Note",
            ActivityStreamsType::Page => "Page",
            ActivityStreamsType::Place => "Place",
            ActivityStreamsType::Profile => "Profile",
            ActivityStreamsType::Relationship => "Relationship",
            ActivityStreamsType::Tombstone => "Tombstone",
            ActivityStreamsType::Video => "Video",
            ActivityStreamsType::Mention => "Mention",
        }
    }

    /// The value that `tag` names; `None` for any other text.
    pub fn from_tag(tag: &str) -> (r: Option<ActivityStreamsType>)
        ensures
            r == ActivityStreamsType::from_tag_spec(tag@),
    {
        if same_text(tag, "Object") {
            Some(ActivityStreamsType::Object)
        } else if same_text(tag, "Link") {
            Some(ActivityStreamsType::Link)
        } else if same_text(tag, "Collection") {
            Some(ActivityStreamsType::Collection)
        } else if same_text(tag, "OrderedCollection") {
            Some(ActivityStreamsType::OrderedCollection)
        } else if same_text(tag, "CollectionPage") {
            Some(ActivityStreamsType::CollectionPage)
        } else if same_text(tag, "OrderedCollectionPage") {
            Some(ActivityStreamsType::OrderedCollectionPage)
        } else if same_text(tag, "Activity") {
            Some(ActivityStreamsType::Activity)
        } else if same_text(tag, "Add") {
            Some(ActivityStreamsType::Add)
        } else if same_text(tag, "Announce") {
            Some(ActivityStreamsType::Announce)
        } else if same_text(tag, "Undo") {
            Some(ActivityStreamsType::Undo)
        } else if same_text(tag, "Update") {
            Some(ActivityStreamsType::Update)
        } else if same_text(tag, "View") {
            Some(ActivityStreamsType::View)
        } else if same_text(tag, "Block") {
            Some(ActivityStreamsType::Block)
        } else if same_text(tag, "Create") {
            Some(ActivityStreamsType::Create)
        } else if same_text(tag, "Delete") {
            Some(ActivityStreamsType::Delete)
        } else if same_text(tag, "Dislike") {
            Some(ActivityStreamsType::Dislike)
        } else if same_text(tag, "Flag") {
            Some(ActivityStreamsType::Flag)
        } else if same_text(tag, "Follow") {
            Some(ActivityStreamsType::Follow)
        } else if same_text(tag, "Ignore") {
            Some(ActivityStreamsType::Ignore)
        } else if same_text(tag, "Join") {
            Some(ActivityStreamsType::Join)
        } else if same_text(tag, "Leave") {
            Some(ActivityStreamsType::Leave)
        } else if same_text(tag, "Like") {
            Some(ActivityStreamsType::Like)
        } else if same_text(tag, "Listen") {
            Some(ActivityStreamsType::Listen)
        } else if same_text(tag, "Move") {
            Some(ActivityStreamsType::Move)
        } else if same_text(tag, "Read") {
            Some(ActivityStreamsType::Read)
        } else if same_text(tag, "Remove") {
            Some(ActivityStreamsType::Remove)
        } else if same_text(tag, "Offer") {
            Some(ActivityStreamsType::Offer)
        } else if same_text(tag, "Invite") {
            Some(ActivityStreamsType::Invite)
        } else if same_text(tag, "Reject") {
            Some(ActivityStreamsType::Reject)
        } else if same_text(tag, "TentativeReject") {
            Some(ActivityStreamsType::TentativeReject)
        } else if same_text(tag, "Accept") {
            Some(ActivityStreamsType::Accept)
        } else if same_text(tag, "TentativeAccept") {
            Some(ActivityStreamsType::TentativeAccept)
        } else if same_text(tag, "Arrive") {
            Some(ActivityStreamsType::Arrive)
        } else if same_text(tag, "IntransitiveActivity") {
            Some(ActivityStreamsType::IntransitiveActivity)
        } else if same_text(tag, "Travel") {
            Some(ActivityStreamsType::Travel)
        } else if same_text(tag, "Question") {
            Some(ActivityStreamsType::Question)
        } else if same_text(tag, "Actor") {
            Some(ActivityStreamsType::Actor)
        } else if same_text(tag, "Application") {
            Some(ActivityStreamsType::Application)
        } else if same_text(tag, "Group") {
            Some(ActivityStreamsType::Group)
        } else if same_text(tag, "Organization") {
            Some(ActivityStreamsType::Organization)
        } else if same_text(tag, "Person") {
            Some(ActivityStreamsType::Person)
        } else if same_text(tag, "Service") {
            Some(ActivityStreamsType::Service)
        } else if same_text(tag, "Article") {
            Some(ActivityStreamsType::Article)
        } else if same_text(tag, "Audio") {
            Some(ActivityStreamsType::Audio)
        } else if same_text(tag, "Document") {
            Some(ActivityStreamsType::Document)
        } else if same_text(tag, "Event") {
            Some(ActivityStreamsType::Event)
        } else if same_text(tag, "Image") {
            Some(ActivityStreamsType::Image)
        } else if same_text(tag, "Note") {
            Some(ActivityStreamsType::Note)
        } else if same_text(tag, "Page") {
            Some(ActivityStreamsType::Page)
        } else if same_text(tag, "Place") {
            Some(ActivityStreamsType::Place)
        } else if same_text(tag, "Profile") {
            Some(ActivityStreamsType::Profile)
        } else if same_text(tag, "Relationship") {
            Some(ActivityStreamsType::Relationship)
        } else if same_text(tag, "Tombstone") {
            Some(ActivityStreamsType::Tombstone)
        } else if same_text(tag, "Video") {
            Some(ActivityStreamsType::Video)
        } else if same_text(tag, "Mention") {
            Some(ActivityStreamsType::Mention)
        } else {
            None
        }
    }

    /// Every value is found again under its own tag, and a tag names at
    /// most the value that carries it.
    pub proof fn lemma_tag_round_trip(self)
        ensures
            ActivityStreamsType::from_tag_spec(self.tag_spec()) == Some(self),
    {
        reveal_strlit("Object");
        assert(outline("Object"@) == (6nat, 'O', 'j', 't', ' ', ' '));
        reveal_strlit("Link");
        assert(outline("Link"@) == (4nat, 'L', 'n', ' ', ' ', ' '));
        reveal_strlit("Collection");
        assert(outline("Collection"@) == (10nat, 'C', 'l', 'c', 't', 'n'));
        reveal_strlit("OrderedCollection");
        assert(outline("OrderedCollection"@) == (17nat, 'O', 'd', 'e', 'd', 'l'));
        reveal_strlit("CollectionPage");
        assert(outline("CollectionPage"@) == (14nat, 'C', 'l', 'c', 't', 'n'));
        reveal_strlit("OrderedCollectionPage");
        assert(outline("OrderedCollectionPage"@) == (21nat, 'O', 'd', 'e', 'd', 'l'));
        reveal_strlit("Activity");
        assert(outline("Activity"@) == (8nat, 'A', 't', 'i', 't', ' '));
        reveal_strlit("Add");
        assert(outline("Add"@) == (3nat, 'A', 'd', ' ', ' ', ' '));
        reveal_strlit("Announce");
        assert(outline("Announce"@) == (8nat, 'A', 'n', 'n', 'c', ' '));
        reveal_strlit("Undo");
        assert(outline("Undo"@) == (4nat, 'U', 'd', ' ', ' ', ' '));
        reveal_strlit("Update");
        assert(outline("Update"@) == (6nat, 'U', 'd', 'e', ' ', ' '));
        reveal_strlit("View");
        assert(outline("View"@) == (4nat, 'V', 'e', ' ', ' ', ' '));
        reveal_strlit("Block");
        assert(outline("Block"@) == (5nat, 'B', 'o', ' ', ' ', ' '));
        reveal_strlit("Create");
        assert(outline("Create"@) == (6nat, 'C', 'e', 'e', ' ', ' '));
        reveal_strlit("Delete");
        assert(outline("Delete"@) == (6nat, 'D', 'l', 'e', ' ', ' '));
        reveal_strlit("Dislike");
        assert(outline("Dislike"@) == (7nat, 'D', 's', 'k', 'e', ' '));
        reveal_strlit("Flag");
        assert(outline("Flag"@) == (4nat, 'F', 'a', ' ', ' ', ' '));
        reveal_strlit("Follow");
        assert(outline("Follow"@) == (6nat, 'F', 'l', 'w', ' ', ' '));
        reveal_strlit("Ignore");
        assert(outline("Ignore"@) == (6nat, 'I', 'n', 'e', ' ', ' '));
        reveal_strlit("Join");
        assert(outline("Join"@) == (4nat, 'J', 'i', ' ', ' ', ' '));
        reveal_strlit("Leave");
        assert(outline("Leave"@) == (5nat, 'L', 'a', ' ', ' ', ' '));
        reveal_strlit("Like");
        assert(outline("Like"@) == (4nat, 'L', 'k', ' ', ' ', ' '));
        reveal_strlit("Listen");
        assert(outline("Listen"@) == (6nat, 'L', 's', 'n', ' ', ' '));
        reveal_strlit("Move");
        assert(outline("Move"@) == (4nat, 'M', 'v', ' ', ' ', ' '));
        reveal_strlit("Read");
        assert(outline("Read"@) == (4nat, 'R', 'a', ' ', ' ', ' '));
        reveal_strlit("Remove");
        assert(outline("Remove"@) == (6nat, 'R', 'm', 'e', ' ', ' '));
        reveal_strlit("Offer");
        assert(outline("Offer"@) == (5nat, 'O', 'f', ' ', ' ', ' '));
        reveal_strlit("Invite");
        assert(outline("Invite"@) == (6nat, 'I', 'v', 'e', ' ', ' '));
        reveal_strlit("Reject");
        assert(outline("Reject"@) == (6nat, 'R', 'j', 't', ' ', ' '));
        reveal_strlit("TentativeReject");
        assert(outline("TentativeReject"@) == (15nat, 'T', 'n', 't', 'i', 'R'));
        reveal_strlit("Accept");
        assert(outline("Accept"@) == (6nat, 'A', 'c', 't', ' ', ' '));
        reveal_strlit("TentativeAccept");
        assert(outline("TentativeAccept"@) == (15nat, 'T', 'n', 't', 'i', 'A'));
        reveal_strlit("Arrive");
        assert(outline("Arrive"@) == (6nat, 'A', 'r', 'e', ' ', ' '));
        reveal_strlit("IntransitiveActivity");
        assert(outline("IntransitiveActivity"@) == (20nat, 'I', 't', 'n', 's', 'i'));
        reveal_strlit("Travel");
        assert(outline("Travel"@) == (6nat, 'T', 'a', 'l', ' ', ' '));
        reveal_strlit("Question");
        assert(outline("Question"@) == (8nat, 'Q', 'e', 'i', 'o', ' '));
        reveal_strlit("Actor");
        assert(outline("Actor"@) == (5nat, 'A', 't', ' ', ' ', ' '));
        reveal_strlit("Application");
        assert(outline("Application"@) == (11nat, 'A', 'p', 'c', 'a', 'o'));
        reveal_strlit("Group");
        assert(outline("Group"@) == (5nat, 'G', 'o', ' ', ' ', ' '));
        reveal_strlit("Organization");
        assert(outline("Organization"@) == (12nat, 'O', 'g', 'i', 'z', 'i'));
        reveal_strlit("Person");
        assert(outline("Person"@) == (6nat, 'P', 'r', 'n', ' ', ' '));
        reveal_strlit("Service");
        assert(outline("Service"@) == (7nat, 'S', 'r', 'c', 'e', ' '));
        reveal_strlit("Article");
        assert(outline("Article"@) == (7nat, 'A', 't', 'l', 'e', ' '));
        reveal_strlit("Audio");
        assert(outline("Audio"@) == (5nat, 'A', 'd', ' ', ' ', ' '));
        reveal_strlit("Document");
        assert(outline("Document"@) == (8nat, 'D', 'c', 'e', 'n', ' '));
        reveal_strlit("Event");
        assert(outline("Event"@) == (5nat, 'E', 'e', ' ', ' ', ' '));
        reveal_strlit("Image");
        assert(outline("Image"@) == (5nat, 'I', 'a', ' ', ' ', ' '));
        reveal_strlit("Note");
        assert(outline("Note"@) == (4nat, 'N', 't', ' ', ' ', ' '));
        reveal_strlit("Page");
        assert(outline("Page"@) == (4nat, 'P', 'g', ' ', ' ', ' '));
        reveal_strlit("Place");
        assert(outline("Place"@) == (5nat, 'P', 'a', ' ', ' ', ' '));
        reveal_strlit("Profile");
        assert(outline("Profile"@) == (7nat, 'P', 'o', 'l', 'e', ' '));
        reveal_strlit("Relationship");
        assert(outline("Relationship"@) == (12nat, 'R', 'l', 'i', 'o', 'h'));
        reveal_strlit("Tombstone");
        assert(outline("Tombstone"@) == (9nat, 'T', 'm', 't', 'o', ' '));
        reveal_strlit("Video");
        assert(outline("Video"@) == (5nat, 'V', 'd', ' ', ' ', ' '));
        reveal_strlit("Mention");
        assert(outline("Mention"@) == (7nat, 'M', 'n', 'o', 'n', ' '));
    }

    /// A tag that names a value is that value's own tag.
    pub proof fn lemma_tag_of_named(tag: Seq<char>)
        ensures
            ActivityStreamsType::from_tag_spec(tag) matches Some(value) ==> value.tag_spec() == tag,
    {
    }
}

/// A link relation, as found in the `rel` property.
#[derive(Debug, Clone, Copy, PartialEq, Eq, Structural)]
pub enum LinkRelation {
    Alternate,
    Canonical,
    Author,
    Bookmark,
    DnsPrefetch,
    External,
    Help,
    Icon,
    Manifest,
    Modulepreload,
    License,
    Next,
    Nofollow,
    Noopener,
    Noreferrer,
    Opener,
    Pingback,
    Preconnect,
    Prefetch,
    Preload,
    Prev,
    Search,
    Stylesheet,
    Tag,
}

impl LinkRelation {
    /// The keyword under which this relation appears in a document.
    pub open spec fn tag_spec(self) -> Seq<char> {
        match self {
            LinkRelation::Alternate => "alternate"@,
            LinkRelation::Canonical => "canonical"@,
            LinkRelation::Author => "author"@,
            LinkRelation::Bookmark => "bookmark"@,
            LinkRelation::DnsPrefetch => "dns-prefetch"@,
            LinkRelation::External => "external"@,
            LinkRelation::Help => "help"@,
            LinkRelation::Icon => "icon"@,
            LinkRelation::Manifest => "manifest"@,
            LinkRelation::Modulepreload => "modulepreload"@,
            LinkRelation::License => "license"@,
            LinkRelation::Next => "next"@,
            LinkRelation::Nofollow => "nofollow"@,
            LinkRelation::Noopener => "noopener"@,
            LinkRelation::Noreferrer => "noreferrer"@,
            LinkRelation::Opener => "opener"@,
            LinkRelation::Pingback => "pingback"@,
            LinkRelation::Preconnect => "preconnect"@,
            LinkRelation::Prefetch => "prefetch"@,
            LinkRelation::Preload => "preload"@,
            LinkRelation::Prev => "prev"@,
            LinkRelation::Search => "search"@,
            LinkRelation::Stylesheet => "stylesheet"@,
            LinkRelation::Tag => "tag"@,
        }
    }

    /// The value that a tag names, if any.
    pub open spec fn from_tag_spec(tag: Seq<char>) -> Option<LinkRelation> {
        if tag == "alternate"@ {
            Some(LinkRelation::Alternate)
        } else if tag == "canonical"@ {
            Some(LinkRelation::Canonical)
        } else if tag == "author"@ {
            Some(LinkRelation::Author)
        } else if tag == "bookmark"@ {
            Some(LinkRelation::Bookmark)
        } else if tag == "dns-prefetch"@ {
            Some(LinkRelation::DnsPrefetch)
        } else if tag == "external"@ {
            Some(LinkRelation::External)
        } else if tag == "help"@ {
            Some(LinkRelation::Help)
        } else if tag == "icon"@ {
            Some(LinkRelation::Icon)
        } else if tag == "manifest"@ {
            Some(LinkRelation::Manifest)
        } else if tag == "modulepreload"@ {
            Some(LinkRelation::Modulepreload)
        } else if tag == "license"@ {
            Some(LinkRelation::License)
        } else if tag == "next"@ {
            Some(LinkRelation::Next)
        } else if tag == "nofollow"@ {
            Some(LinkRelation::Nofollow)
        } else if tag == "noopener"@ {
            Some(LinkRelation::Noopener)
        } else if tag == "noreferrer"@ {
            Some(LinkRelation::Noreferrer)
        } else if tag == "opener"@ {
            Some(LinkRelation::Opener)
        } else if tag == "pingback"@ {
            Some(LinkRelation::Pingback)
        } else if tag == "preconnect"@ {
            Some(LinkRelation::Preconnect)
        } else if tag == "prefetch"@ {
            Some(LinkRelation::Prefetch)
        } else if tag == "preload"@ {
            Some(LinkRelation::Preload)
        } else if tag == "prev"@ {
            Some(LinkRelation::Prev)
        } else if tag == "search"@ {
            Some(LinkRelation::Search)
        } else if tag == "stylesheet"@ {
            Some(LinkRelation::Stylesheet)
        } else if tag == "tag"@ {
            Some(LinkRelation::Tag)
        } else {
            None
        }
    }

    /// The keyword under which this relation appears in a document.
    pub fn tag(self) -> (r: &'static str)
        ensures
            r@ == self.tag_spec(),
    {
        match self {
            LinkRelation::Alternate => "alternate",
            LinkRelation::Canonical => "canonical",
            LinkRelation::Author => "author",
            LinkRelation::Bookmark => "bookmark",
            LinkRelation::DnsPrefetch => "dns-prefetch",
            LinkRelation::External => "external",
            LinkRelation::Help => "help",
            LinkRelation::Icon => "icon",
            LinkRelation::Manifest => "manifest",
            LinkRelation::Modulepreload => "modulepreload",
            LinkRelation::License => "license",
            LinkRelation::Next => "next",
            LinkRelation::Nofollow => "nofollow",
            LinkRelation::Noopener => "noopener",
            LinkRelation::Noreferrer => "noreferrer",
            LinkRelation::Opener => "opener",
            LinkRelation::Pingback => "pingback",
            LinkRelation::Preconnect => "preconnect",
            LinkRelation::Prefetch => "prefetch",
            LinkRelation::Preload => "preload",
            LinkRelation::Prev => "prev",
            LinkRelation::Search => "search",
            LinkRelation::Stylesheet => "stylesheet",
            LinkRelation::Tag => "tag",
        }
    }

    /// The value that `tag` names; `None` for any other text.
    pub fn from_tag(tag: &str) -> (r: Option<LinkRelation>)
        ensures
            r == LinkRelation::from_tag_spec(tag@),
    {
        if same_text(tag, "alternate") {
            Some(LinkRelation::Alternate)
        } else if same_text(tag, "canonical") {
            Some(LinkRelation::Canonical)
        } else if same_text(tag, "author") {
            Some(LinkRelation::Author)
        } else if same_text(tag, "bookmark") {
            Some(LinkRelation::Bookmark)
        } else if same_text(tag, "dns-prefetch") {
            Some(LinkRelation::DnsPrefetch)
        } else if same_text(tag, "external") {
            Some(LinkRelation::External)
        } else if same_text(tag, "help") {
            Some(LinkRelation::Help)
        } else if same_text(tag, "icon") {
            Some(LinkRelation::Icon)
        } else if same_text(tag, "manifest") {
            Some(LinkRelation::Manifest)
        } else if same_text(tag, "modulepreload") {
            Some(LinkRelation::Modulepreload)
        } else if same_text(tag, "license") {
            Some(LinkRelation::License)
        } else if same_text(tag, "next") {
            Some(LinkRelation::Next)
        } else if same_text(tag, "nofollow") {
            Some(LinkRelation::Nofollow)
        } else if same_text(tag, "noopener") {
            Some(LinkRelation::Noopener)
        } else if same_text(tag, "noreferrer") {
            Some(LinkRelation::Noreferrer)
        } else if same_text(tag, "opener") {
            Some(LinkRelation::Opener)
        } else if same_text(tag, "pingback") {
            Some(LinkRelation::Pingback)
        } else if same_text(tag, "preconnect") {
            Some(LinkRelation::Preconnect)
        } else if same_text(tag, "prefetch") {
            Some(LinkRelation::Prefetch)
        } else if same_text(tag, "preload") {
            Some(LinkRelation::Preload)
        } else if same_text(tag, "prev") {
            Some(LinkRelation::Prev)
        } else if same_text(tag, "search") {
            Some(LinkRelation::Search)
        } else if same_text(tag, "stylesheet") {
            Some(LinkRelation::Stylesheet)
        } else if same_text(tag, "tag") {
            Some(LinkRelation::Tag)
        } else {
            None
        }
    }

    /// Every value is found again under its own tag, and a tag names at
    /// most the value that carries it.
    pub proof fn lemma_tag_round_trip(self)
        ensures
            LinkRelation::from_tag_spec(self.tag_spec()) == Some(self),
    {
        reveal_strlit("alternate");
        assert(outline("alternate"@) == (9nat, 'a', 't', 'n', 'a', ' '));
        reveal_strlit("canonical");
        assert(outline("canonical"@) == (9nat, 'c', 'n', 'i', 'c', ' '));
        reveal_strlit("author");
        assert(outline("author"@) == (6nat, 'a', 't', 'r', ' ', ' '));
        reveal_strlit("bookmark");
        assert(outline("bookmark"@) == (8nat, 'b', 'o', 'a', 'r', ' '));
        reveal_strlit("dns-prefetch");
        assert(outline("dns-prefetch"@) == (12nat, 'd', 's', 'r', 'e', 't'));
        reveal_strlit("external");
        assert(outline("external"@) == (8nat, 'e', 't', 'n', 'a', ' '));
        reveal_strlit("help");
        assert(outline("help"@) == (4nat, 'h', 'l', ' ', ' ', ' '));
        reveal_strlit("icon");
        assert(outline("icon"@) == (4nat, 'i', 'o', ' ', ' ', ' '));
        reveal_strlit("manifest");
        assert(outline("manifest"@) == (8nat, 'm', 'n', 'e', 's', ' '));
        reveal_strlit("modulepreload");
        assert(outline("modulepreload"@) == (13nat, 'm', 'd', 'e', 'p', 'l'));
        reveal_strlit("license");
        assert(outline("license"@) == (7nat, 'l', 'c', 's', 'e', ' '));
        reveal_strlit("next");
        assert(outline("next"@) == (4nat, 'n', 'x', ' ', ' ', ' '));
        reveal_strlit("nofollow");
        assert(outline("nofollow"@) == (8nat, 'n', 'f', 'l', 'o', ' '));
        reveal_strlit("noopener");
        assert(outline("noopener"@) == (8nat, 'n', 'o', 'n', 'e', ' '));
        reveal_strlit("noreferrer");
        assert(outline("noreferrer"@) == (10nat, 'n', 'r', 'e', 'r', 'r'));
        reveal_strlit("opener");
        assert(outline("opener"@) == (6nat, 'o', 'e', 'r', ' ', ' '));
        reveal_strlit("pingback");
        assert(outline("pingback"@) == (8nat, 'p', 'n', 'a', 'c', ' '));
        reveal_strlit("preconnect");
        assert(outline("preconnect"@) == (10nat, 'p', 'e', 'n', 'n', 't'));
        reveal_strlit("prefetch");
        assert(outline("prefetch"@) == (8nat, 'p', 'e', 't', 'c', ' '));
        reveal_strlit("preload");
        assert(outline("preload"@) == (7nat, 'p', 'e', 'a', 'd', ' '));
        reveal_strlit("prev");
        assert(outline("prev"@) == (4nat, 'p', 'e', ' ', ' ', ' '));
        reveal_strlit("search");
        assert(outline("search"@) == (6nat, 's', 'a', 'h', ' ', ' '));
        reveal_strlit("stylesheet");
        assert(outline("stylesheet"@) == (10nat, 's', 'y', 's', 'h', 't'));
        reveal_strlit("tag");
        assert(outline("tag"@) == (3nat, 't', 'g', ' ', ' ', ' '));
    }

    /// A tag that names a value is that value's own tag.
    pub proof fn lemma_tag_of_named(tag: Seq<char>)
        ensures
            LinkRelation::from_tag_spec(tag) matches Some(value) ==> value.tag_spec() == tag,
    {
    }
}

} // verus!
