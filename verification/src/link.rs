//! Links: a URL that refers to an object, or the object itself; and the
//! properties that hold links or objects.

use crate::json::items_view;
use crate::json::lemma_items_view;
use crate::json::Json;
use crate::json::JsonView;
use crate::multiplicity::Multiplicity;
use crate::multiplicity::NonFunctional;
use crate::object::lemma_object_round_trip;
use crate::object::object_json;
use crate::object::object_of;
use crate::object::object_view;
use crate::object::object_wf;
use crate::object::Object;
use crate::object::ObjectView;
use crate::scalars::same_json;
use crate::url::is_canonical;
use crate::url::parsed_url;
use crate::url::Url;
use vstd::prelude::*;

verus! {

/// A reference to an object by its URL, or the object itself.
#[derive(Debug, PartialEq, Eq)]
pub enum LinkObject {
    Url(Url),
    Object(Box<Object>),
}

/// The mathematical value of a [`LinkObject`].
pub ghost enum LinkView {
    Url(Seq<char>),
    Object(Box<ObjectView>),
}

/// The value of the `closed` property: a text, a truth value, or an object.
#[derive(Debug, PartialEq, Eq)]
pub enum ClosedProperty {
    String(String),
    Bool(bool),
    Object(LinkObject),
}

/// The mathematical value of a [`ClosedProperty`].
pub ghost enum ClosedView {
    String(Seq<char>),
    Bool(bool),
    Object(LinkView),
}

// ---------------------------------------------------------------------------
// Views
// ---------------------------------------------------------------------------
/// The value of a link.
pub open spec fn link_view(link: LinkObject) -> LinkView
    decreases link, 0nat,
{
    match link {
        LinkObject::Url(url) => LinkView::Url(url@),
        LinkObject::Object(object) => LinkView::Object(Box::new(object_view(*object))),
    }
}

/// The values of the first `n` links of a list.
pub open spec fn link_list_view_upto(links: Seq<LinkObject>, n: nat) -> Seq<LinkView>
    decreases links, n,
{
    if n == 0 || n > links.len() {
        Seq::empty()
    } else {
        link_list_view_upto(links, (n - 1) as nat).push(link_view(links[n - 1]))
    }
}

/// The values of a list of links.
pub open spec fn link_list_view(links: Seq<LinkObject>) -> Seq<LinkView> {
    link_list_view_upto(links, links.len())
}

/// The value of zero, one or many links.
pub open spec fn links_view(links: NonFunctional<LinkObject>) -> Multiplicity<LinkView>
    decreases links, 0nat,
{
    match links {
        NonFunctional::Absent => Multiplicity::Absent,
        NonFunctional::One(one) => Multiplicity::One(link_view(one)),
        NonFunctional::Many(many) => Multiplicity::Many(link_list_view_upto(many@, many@.len())),
    }
}

/// The value of an optional link.
pub open spec fn link_option_view(link: Option<LinkObject>) -> Option<LinkView>
    decreases link, 0nat,
{
    match link {
        Some(link) => Some(link_view(link)),
        None => None,
    }
}

/// The value of an optional `closed` property.
pub open spec fn closed_view(closed: Option<ClosedProperty>) -> Option<ClosedView>
    decreases closed, 0nat,
{
    match closed {
        Some(ClosedProperty::String(text)) => Some(ClosedView::String(text@)),
        Some(ClosedProperty::Bool(truth)) => Some(ClosedView::Bool(truth)),
        Some(ClosedProperty::Object(link)) => Some(ClosedView::Object(link_view(link))),
        None => None,
    }
}

/// The value of an optional embedded object.
pub open spec fn embedded_view(embedded: Option<Box<Object>>) -> Option<Box<ObjectView>>
    decreases embedded, 0nat,
{
    match embedded {
        Some(object) => Some(Box::new(object_view(*object))),
        None => None,
    }
}

impl View for LinkObject {
    type V = LinkView;

    open spec fn view(&self) -> LinkView {
        link_view(*self)
    }
}

/// `link_list_view_upto` maps the first `n` links one by one.
pub proof fn lemma_link_list_view_upto(links: Seq<LinkObject>, n: nat)
    requires
        n <= links.len(),
    ensures
        link_list_view_upto(links, n).len() == n,
        forall|i: int| 0 <= i < n ==> #[trigger] link_list_view_upto(links, n)[i] == link_view(links[i]),
    decreases n,
{
    if n > 0 {
        lemma_link_list_view_upto(links, (n - 1) as nat);
    }
}

/// The view of a list of links has one value for each link, in order.
pub proof fn lemma_link_list_view(links: Seq<LinkObject>)
    ensures
        link_list_view(links).len() == links.len(),
        forall|i: int| 0 <= i < links.len() ==> #[trigger] link_list_view(links)[i] == link_view(links[i]),
{
    lemma_link_list_view_upto(links, links.len());
}

// ---------------------------------------------------------------------------
// Writing
// ---------------------------------------------------------------------------
/// The tree that a link is written as: the URL as a text, or the object.
pub open spec fn link_json(link: LinkView) -> JsonView
    decreases link, 0nat,
{
    match link {
        LinkView::Url(url) => JsonView::String(url),
        LinkView::Object(object) => object_json(*object),
    }
}

/// The trees that the first `n` links of a list are written as.
pub open spec fn link_list_json_upto(links: Seq<LinkView>, n: nat) -> Seq<JsonView>
    decreases links, n,
{
    if n == 0 || n > links.len() {
        Seq::empty()
    } else {
        link_list_json_upto(links, (n - 1) as nat).push(link_json(links[n - 1]))
    }
}

/// The tree that links are written as: nothing, the link, or an array.
pub open spec fn links_json(links: Multiplicity<LinkView>) -> Option<JsonView>
    decreases links, 0nat,
{
    match links {
        Multiplicity::Absent => None,
        Multiplicity::One(one) => Some(link_json(one)),
        Multiplicity::Many(many) => if many.len() == 0 {
            None
        } else {
            Some(JsonView::Array(link_list_json_upto(many, many.len())))
        },
    }
}

/// The tree that an optional link is written as.
pub open spec fn link_option_json(link: Option<LinkView>) -> Option<JsonView>
    decreases link, 0nat,
{
    match link {
        Some(link) => Some(link_json(link)),
        None => None,
    }
}

/// The tree that an optional `closed` property is written as.
pub open spec fn closed_json(closed: Option<ClosedView>) -> Option<JsonView>
    decreases closed, 0nat,
{
    match closed {
        Some(ClosedView::String(text)) => Some(JsonView::String(text)),
        Some(ClosedView::Bool(truth)) => Some(JsonView::Bool(truth)),
        Some(ClosedView::Object(link)) => Some(link_json(link)),
        None => None,
    }
}

/// The tree that an optional embedded object is written as.
pub open spec fn embedded_json(embedded: Option<Box<ObjectView>>) -> Option<JsonView>
    decreases embedded, 0nat,
{
    match embedded {
        Some(object) => Some(object_json(*object)),
        None => None,
    }
}

/// `link_list_json_upto` maps the first `n` links one by one.
pub proof fn lemma_link_list_json_upto(links: Seq<LinkView>, n: nat)
    requires
        n <= links.len(),
    ensures
        link_list_json_upto(links, n).len() == n,
        forall|i: int| 0 <= i < n ==> #[trigger] link_list_json_upto(links, n)[i] == link_json(links[i]),
    decreases n,
{
    if n > 0 {
        lemma_link_list_json_upto(links, (n - 1) as nat);
    }
}

// ---------------------------------------------------------------------------
// Reading
// ---------------------------------------------------------------------------
// Readers of one and the same tree are ordered by the second measure: the
// reader of a property (1002) reads links (1001), a link (1000) reads an
// object, whose own measure is its number of properties and a little more.
/// The link that a tree is read as: a text that is a URL, or an object.
pub open spec fn link_of(json: JsonView) -> Option<LinkView>
    decreases json, 1000nat,
{
    match json {
        JsonView::String(text) => match parsed_url(text) {
            Some(canonical) => Some(LinkView::Url(canonical)),
            None => None,
        },
        JsonView::Object(_) => match object_of(json) {
            Ok(object) => Some(LinkView::Object(Box::new(object))),
            Err(_) => None,
        },
        _ => None,
    }
}

/// The links that the first `n` trees are read as; `None` where one of them
/// is no link.
pub open spec fn link_list_of_upto(items: Seq<JsonView>, n: nat) -> Option<Seq<LinkView>>
    decreases items, n,
{
    if n == 0 || n > items.len() {
        Some(Seq::empty())
    } else {
        match (link_list_of_upto(items, (n - 1) as nat), link_of(items[n - 1])) {
            (Some(links), Some(link)) => Some(links.push(link)),
            _ => None,
        }
    }
}

/// The links that a tree is read as. An empty array holds nothing.
pub open spec fn links_of(json: JsonView) -> Option<Multiplicity<LinkView>>
    decreases json, 1001nat,
{
    match json {
        JsonView::Null => Some(Multiplicity::Absent),
        JsonView::Array(items) => match link_list_of_upto(items, items.len()) {
            Some(links) => if items.len() == 0 {
                Some(Multiplicity::Absent)
            } else {
                Some(Multiplicity::Many(links))
            },
            None => None,
        },
        _ => match link_of(json) {
            Some(link) => Some(Multiplicity::One(link)),
            None => None,
        },
    }
}

/// The optional link that a tree is read as.
pub open spec fn link_option_of(json: JsonView) -> Option<Option<LinkView>>
    decreases json, 1001nat,
{
    match json {
        JsonView::Null => Some(None),
        _ => match link_of(json) {
            Some(link) => Some(Some(link)),
            None => None,
        },
    }
}

/// The optional `closed` property that a tree is read as.
pub open spec fn closed_of(json: JsonView) -> Option<Option<ClosedView>>
    decreases json, 1001nat,
{
    match json {
        JsonView::Null => Some(None),
        JsonView::String(text) => Some(Some(ClosedView::String(text))),
        JsonView::Bool(truth) => Some(Some(ClosedView::Bool(truth))),
        JsonView::Object(_) => match link_of(json) {
            Some(link) => Some(Some(ClosedView::Object(link))),
            None => None,
        },
        _ => None,
    }
}

/// The optional embedded object that a tree is read as.
pub open spec fn embedded_of(json: JsonView) -> Option<Option<Box<ObjectView>>>
    decreases json, 1001nat,
{
    match json {
        JsonView::Null => Some(None),
        JsonView::Object(_) => match object_of(json) {
            Ok(object) => Some(Some(Box::new(object))),
            Err(_) => None,
        },
        _ => None,
    }
}

/// `link_list_of_upto` succeeds exactly when each of the first `n` trees is
/// a link, and then maps them one by one.
pub proof fn lemma_link_list_of_upto(items: Seq<JsonView>, n: nat)
    requires
        n <= items.len(),
    ensures
        link_list_of_upto(items, n) is Some <==> forall|i: int|
            0 <= i < n ==> (#[trigger] link_of(items[i])) is Some,
        link_list_of_upto(items, n) matches Some(links) ==> links.len() == n && forall|i: int|
            0 <= i < n ==> #[trigger] links[i] == link_of(items[i])->0,
    decreases n,
{
    if n > 0 {
        lemma_link_list_of_upto(items, (n - 1) as nat);
        if forall|i: int| 0 <= i < n ==> (#[trigger] link_of(items[i])) is Some {
            assert(link_of(items[n - 1]) is Some);
            assert(link_list_of_upto(items, (n - 1) as nat) is Some);
        }
        if link_list_of_upto(items, n) is Some {
            assert forall|i: int| 0 <= i < n implies (#[trigger] link_of(items[i])) is Some by {
                if i < n - 1 {
                }
            }
        }
    }
}

// ---------------------------------------------------------------------------
// Canonical values
// ---------------------------------------------------------------------------
/// A link is canonical when its URL is serialized, or its object is canonical.
pub open spec fn link_wf(link: LinkView) -> bool
    decreases link, 0nat,
{
    match link {
        LinkView::Url(url) => is_canonical(url),
        LinkView::Object(object) => object_wf(*object),
    }
}

/// Whether the first `n` links of a list are canonical.
pub open spec fn link_list_wf_upto(links: Seq<LinkView>, n: nat) -> bool
    decreases links, n,
{
    if n == 0 || n > links.len() {
        true
    } else {
        link_list_wf_upto(links, (n - 1) as nat) && link_wf(links[n - 1])
    }
}

/// Links are canonical when they are in normal form and each link is
/// canonical.
pub open spec fn links_wf(links: Multiplicity<LinkView>) -> bool
    decreases links, 0nat,
{
    match links {
        Multiplicity::Absent => true,
        Multiplicity::One(one) => link_wf(one),
        Multiplicity::Many(many) => many.len() > 0 && link_list_wf_upto(many, many.len()),
    }
}

/// An optional link is canonical when the link, if any, is.
pub open spec fn link_option_wf(link: Option<LinkView>) -> bool
    decreases link, 0nat,
{
    match link {
        Some(link) => link_wf(link),
        None => true,
    }
}

/// An optional `closed` property is canonical when it holds no bare URL and
/// its object, if any, is canonical.
pub open spec fn closed_wf(closed: Option<ClosedView>) -> bool
    decreases closed, 0nat,
{
    match closed {
        Some(ClosedView::Object(link)) => link is Object && link_wf(link),
        _ => true,
    }
}

/// An optional embedded object is canonical when the object, if any, is.
pub open spec fn embedded_wf(embedded: Option<Box<ObjectView>>) -> bool
    decreases embedded, 0nat,
{
    match embedded {
        Some(object) => object_wf(*object),
        None => true,
    }
}

/// `link_list_wf_upto` holds exactly when each of the first `n` links is
/// canonical.
pub proof fn lemma_link_list_wf_upto(links: Seq<LinkView>, n: nat)
    requires
        n <= links.len(),
    ensures
        link_list_wf_upto(links, n) <==> forall|i: int| 0 <= i < n ==> link_wf(#[trigger] links[i]),
    decreases n,
{
    if n > 0 {
        lemma_link_list_wf_upto(links, (n - 1) as nat);
        if forall|i: int| 0 <= i < n ==> link_wf(#[trigger] links[i]) {
            assert(link_wf(links[n - 1]));
        }
    }
}

// ---------------------------------------------------------------------------
// Reading what was written
// ---------------------------------------------------------------------------
/// What an object is written as is an object.
pub proof fn lemma_object_json_is_object(object: ObjectView)
    ensures
        object_json(object) is Object,
{
}

/// Reading what a canonical link is written as gives the link back.
pub proof fn lemma_link_round_trip(link: LinkView)
    requires
        link_wf(link),
    ensures
        link_of(link_json(link)) == Some(link),
    decreases link, 0nat,
{
    match link {
        LinkView::Url(url) => {},
        LinkView::Object(object) => {
            lemma_object_round_trip(*object);
            lemma_object_json_is_object(*object);
        },
    }
}

/// Reading what the first `n` canonical links of a list are written as gives
/// them back.
pub proof fn lemma_link_list_round_trip(links: Seq<LinkView>, n: nat)
    requires
        n <= links.len(),
        link_list_wf_upto(links, n),
    ensures
        forall|m: nat|
            n <= m <= links.len() ==> link_list_of_upto(#[trigger] link_list_json_upto(links, m), n)
                == Some(links.take(n as int)),
    decreases links, n,
{
    if n == 0 {
        assert(links.take(0) =~= Seq::empty());
    } else {
        lemma_link_list_round_trip(links, (n - 1) as nat);
        lemma_link_round_trip(links[n - 1]);
        assert forall|m: nat| n <= m <= links.len() implies link_list_of_upto(
            #[trigger] link_list_json_upto(links, m),
            n,
        ) == Some(links.take(n as int)) by {
            lemma_link_list_json_upto(links, m);
            assert(links.take(n as int) =~= links.take(n - 1).push(links[n - 1]));
        }
    }
}

/// What a link is written as is a text or an object, never an array or
/// nothing.
pub proof fn lemma_link_json_shape(link: LinkView)
    ensures
        link_json(link) is String || link_json(link) is Object,
{
    if let LinkView::Object(object) = link {
        lemma_object_json_is_object(*object);
    }
}

/// What links are written as is a text, an object or an array, never
/// `null`.
pub proof fn lemma_links_json_shape(links: Multiplicity<LinkView>)
    ensures
        links_json(links) != Some(JsonView::Null),
{
    if let Multiplicity::One(one) = links {
        lemma_link_json_shape(one);
    }
}

/// Reading what canonical links are written as gives them back.
pub proof fn lemma_links_round_trip(links: Multiplicity<LinkView>)
    requires
        links_wf(links),
    ensures
        match links_json(links) {
            Some(json) => links_of(json) == Some(links),
            None => links is Absent,
        },
    decreases links, 0nat,
{
    match links {
        Multiplicity::Absent => {},
        Multiplicity::One(one) => {
            lemma_link_round_trip(one);
            lemma_link_json_shape(one);
        },
        Multiplicity::Many(many) => {
            lemma_link_list_round_trip(many, many.len());
            lemma_link_list_json_upto(many, many.len());
            assert(many.take(many.len() as int) =~= many);
            assert(link_list_of_upto(link_list_json_upto(many, many.len()), many.len()) == Some(many));
        },
    }
}

/// Reading what a canonical optional link is written as gives it back.
pub proof fn lemma_link_option_round_trip(link: Option<LinkView>)
    requires
        link_option_wf(link),
    ensures
        match link_option_json(link) {
            Some(json) => link_option_of(json) == Some(link),
            None => link is None,
        },
    decreases link, 0nat,
{
    if let Some(held) = link {
        lemma_link_round_trip(held);
        lemma_link_json_shape(held);
    }
}

/// Reading what a canonical optional `closed` property is written as gives
/// it back.
pub proof fn lemma_closed_round_trip(closed: Option<ClosedView>)
    requires
        closed_wf(closed),
    ensures
        match closed_json(closed) {
            Some(json) => closed_of(json) == Some(closed),
            None => closed is None,
        },
    decreases closed, 0nat,
{
    if let Some(ClosedView::Object(link)) = closed {
        lemma_link_round_trip(link);
        lemma_link_json_shape(link);
    }
}

/// Reading what a canonical optional embedded object is written as gives it
/// back.
pub proof fn lemma_embedded_round_trip(embedded: Option<Box<ObjectView>>)
    requires
        embedded_wf(embedded),
    ensures
        match embedded_json(embedded) {
            Some(json) => embedded_of(json) == Some(embedded),
            None => embedded is None,
        },
    decreases embedded, 0nat,
{
    if let Some(object) = embedded {
        lemma_object_round_trip(*object);
        lemma_object_json_is_object(*object);
    }
}

// ---------------------------------------------------------------------------
// Executable readers and writers
// ---------------------------------------------------------------------------
impl LinkObject {
    /// Whether this link is canonical.
    pub fn is_canonical(&self) -> (r: bool)
        ensures
            r == link_wf(self@),
        decreases self, 0nat,
    {
        match self {
            LinkObject::Url(url) => url.is_canonical(),
            LinkObject::Object(object) => object.is_canonical(),
        }
    }

    /// The tree that this link is written as.
    pub fn to_json(&self) -> (r: Json)
        ensures
            r@ == link_json(self@),
        decreases self, 0nat,
    {
        match self {
            LinkObject::Url(url) => Json::String(url.as_str().to_owned()),
            LinkObject::Object(object) => object.to_json(),
        }
    }

    /// The link that a tree is read as: a URL for a text that is one, an
    /// object for a JSON object that can be read as one, `None` otherwise.
    pub fn from_json(json: &Json) -> (r: Option<LinkObject>)
        ensures
            match link_of(json@) {
                Some(link) => r matches Some(read) && read@ == link,
                None => r is None,
            },
        decreases json, 1000nat,
    {
        match json {
            Json::String(text) => match Url::parse(text.as_str()) {
                Some(url) => Some(LinkObject::Url(url)),
                None => None,
            },
            Json::Object(_) => match Object::from_json(json) {
                Ok(object) => Some(LinkObject::Object(Box::new(object))),
                Err(_) => None,
            },
            _ => None,
        }
    }
}

/// Writes zero, one or many links; `None` where there is none to write.
pub fn links_to_json(links: &NonFunctional<LinkObject>) -> (r: Option<Json>)
    ensures
        same_json(r, links_json(links_view(*links))),
    decreases links, 0nat,
{
    match links {
        NonFunctional::Absent => None,
        NonFunctional::One(one) => Some(one.to_json()),
        NonFunctional::Many(many) => {
            if many.len() == 0 {
                return None;
            }
            let mut items: Vec<Json> = Vec::new();
            let mut i: usize = 0;
            while i < many.len()
                invariant
                    i <= many.len(),
                    items@.len() == i,
                    forall|k: int| 0 <= k < i ==> (#[trigger] items@[k])@ == link_json(link_view(many@[k])),
                    links is Many,
                    links->Many_0 == *many,
                decreases many.len() - i,
            {
                items.push(many[i].to_json());
                i = i + 1;
            }
            proof {
                let views = link_list_view(many@);
                lemma_link_list_view(many@);
                lemma_link_list_json_upto(views, views.len());
                lemma_items_view(items@);
                assert(items_view(items@) =~= link_list_json_upto(views, views.len()));
            }
            Some(Json::Array(items))
        },
    }
}

/// Reads zero, one or many links; `None` where the tree is neither `null`, a
/// link, nor an array of links. An empty array is read as nothing.
pub fn links_from_json(json: &Json) -> (r: Option<NonFunctional<LinkObject>>)
    ensures
        match links_of(json@) {
            Some(links) => r matches Some(read) && links_view(read) == links,
            None => r is None,
        },
    decreases json, 1001nat,
{
    match json {
        Json::Null => Some(NonFunctional::Absent),
        Json::Array(items) => {
            let mut many: Vec<LinkObject> = Vec::new();
            let mut i: usize = 0;
            proof {
                lemma_items_view(items@);
            }
            while i < items.len()
                invariant
                    i <= items.len(),
                    many@.len() == i,
                    json is Array,
                    json->Array_0 == *items,
                    items_view(items@).len() == items@.len(),
                    forall|k: int| 0 <= k < items@.len() ==> #[trigger] items_view(items@)[k] == items@[k]@,
                    forall|k: int|
                        0 <= k < i ==> link_of(#[trigger] items_view(items@)[k]) == Some(
                            link_view(many@[k]),
                        ),
                decreases items.len() - i,
            {
                match LinkObject::from_json(&items[i]) {
                    Some(link) => {
                        many.push(link);
                    },
                    None => {
                        proof {
                            lemma_link_list_of_upto(items_view(items@), items@.len() as nat);
                            assert(link_of(items_view(items@)[i as int]) is None);
                        }
                        return None;
                    },
                }
                i = i + 1;
            }
            proof {
                let views = items_view(items@);
                lemma_link_list_of_upto(views, views.len());
                assert forall|k: int| 0 <= k < views.len() implies (#[trigger] link_of(views[k])) is Some by {
                }
                lemma_link_list_view(many@);
                assert(link_list_view(many@) =~= link_list_of_upto(views, views.len())->0);
            }
            if many.len() == 0 {
                Some(NonFunctional::Absent)
            } else {
                Some(NonFunctional::Many(many))
            }
        },
        _ => match LinkObject::from_json(json) {
            Some(link) => Some(NonFunctional::One(link)),
            None => None,
        },
    }
}

/// Writes an optional link; `None` where there is none to write.
pub fn link_option_to_json(link: &Option<LinkObject>) -> (r: Option<Json>)
    ensures
        same_json(r, link_option_json(link_option_view(*link))),
    decreases link, 0nat,
{
    match link {
        Some(link) => Some(link.to_json()),
        None => None,
    }
}

/// Reads an optional link; `None` where the tree is neither `null` nor a
/// link.
pub fn link_option_from_json(json: &Json) -> (r: Option<Option<LinkObject>>)
    ensures
        match link_option_of(json@) {
            Some(link) => r matches Some(read) && link_option_view(read) == link,
            None => r is None,
        },
    decreases json, 1001nat,
{
    match json {
        Json::Null => Some(None),
        _ => match LinkObject::from_json(json) {
            Some(link) => Some(Some(link)),
            None => None,
        },
    }
}

/// Writes an optional `closed` property; `None` where there is none to write.
pub fn closed_to_json(closed: &Option<ClosedProperty>) -> (r: Option<Json>)
    ensures
        same_json(r, closed_json(closed_view(*closed))),
    decreases closed, 0nat,
{
    match closed {
        Some(ClosedProperty::String(text)) => Some(Json::String(text.clone())),
        Some(ClosedProperty::Bool(truth)) => Some(Json::Bool(*truth)),
        Some(ClosedProperty::Object(link)) => Some(link.to_json()),
        None => None,
    }
}

/// Reads an optional `closed` property; `None` where the tree is neither
/// `null`, a text, a truth value, nor an object. A text is never read as a
/// URL.
pub fn closed_from_json(json: &Json) -> (r: Option<Option<ClosedProperty>>)
    ensures
        match closed_of(json@) {
            Some(closed) => r matches Some(read) && closed_view(read) == closed,
            None => r is None,
        },
    decreases json, 1001nat,
{
    match json {
        Json::Null => Some(None),
        Json::String(text) => Some(Some(ClosedProperty::String(text.clone()))),
        Json::Bool(truth) => Some(Some(ClosedProperty::Bool(*truth))),
        Json::Object(_) => match LinkObject::from_json(json) {
            Some(link) => Some(Some(ClosedProperty::Object(link))),
            None => None,
        },
        _ => None,
    }
}

/// Writes an optional embedded object; `None` where there is none to write.
pub fn embedded_to_json(embedded: &Option<Box<Object>>) -> (r: Option<Json>)
    ensures
        same_json(r, embedded_json(embedded_view(*embedded))),
    decreases embedded, 0nat,
{
    match embedded {
        Some(object) => Some(object.to_json()),
        None => None,
    }
}

/// Reads an optional embedded object; `None` where the tree is neither
/// `null` nor a readable object.
pub fn embedded_from_json(json: &Json) -> (r: Option<Option<Box<Object>>>)
    ensures
        match embedded_of(json@) {
            Some(embedded) => r matches Some(read) && embedded_view(read) == embedded,
            None => r is None,
        },
    decreases json, 1001nat,
{
    match json {
        Json::Null => Some(None),
        Json::Object(_) => match Object::from_json(json) {
            Ok(object) => Some(Some(Box::new(object))),
            Err(_) => None,
        },
        _ => None,
    }
}

/// Whether zero, one or many links are canonical.
pub fn links_are_canonical(links: &NonFunctional<LinkObject>) -> (r: bool)
    ensures
        r == links_wf(links_view(*links)),
    decreases links, 0nat,
{
    match links {
        NonFunctional::Absent => true,
        NonFunctional::One(one) => one.is_canonical(),
        NonFunctional::Many(many) => {
            if many.len() == 0 {
                return false;
            }
            let ghost views = link_list_view(many@);
            proof {
                lemma_link_list_view(many@);
                lemma_link_list_wf_upto(views, views.len());
            }
            let mut i: usize = 0;
            while i < many.len()
                invariant
                    i <= many.len(),
                    links is Many,
                    links->Many_0 == *many,
                    views == link_list_view(many@),
                    views.len() == many@.len(),
                    forall|k: int| 0 <= k < many@.len() ==> #[trigger] views[k] == link_view(many@[k]),
                    forall|k: int| 0 <= k < i ==> link_wf(#[trigger] views[k]),
                    link_list_wf_upto(views, views.len()) <==> forall|k: int|
                        0 <= k < views.len() ==> link_wf(#[trigger] views[k]),
                decreases many.len() - i,
            {
                if !many[i].is_canonical() {
                    assert(!link_wf(views[i as int]));
                    return false;
                }
                i = i + 1;
            }
            true
        },
    }
}

/// Whether an optional link is canonical.
pub fn link_option_is_canonical(link: &Option<LinkObject>) -> (r: bool)
    ensures
        r == link_option_wf(link_option_view(*link)),
    decreases link, 0nat,
{
    match link {
        Some(link) => link.is_canonical(),
        None => true,
    }
}

/// Whether an optional `closed` property is canonical.
pub fn closed_is_canonical(closed: &Option<ClosedProperty>) -> (r: bool)
    ensures
        r == closed_wf(closed_view(*closed)),
    decreases closed, 0nat,
{
    match closed {
        Some(ClosedProperty::Object(LinkObject::Object(object))) => object.is_canonical(),
        Some(ClosedProperty::Object(LinkObject::Url(_))) => false,
        _ => true,
    }
}

/// Whether an optional embedded object is canonical.
pub fn embedded_is_canonical(embedded: &Option<Box<Object>>) -> (r: bool)
    ensures
        r == embedded_wf(embedded_view(*embedded)),
    decreases embedded, 0nat,
{
    match embedded {
        Some(object) => object.is_canonical(),
        None => true,
    }
}

} // verus!
