//! Properties that hold plain values: how each kind is read and written.

use crate::json::items_view;
use crate::json::lemma_items_view;
use crate::json::Json;
use crate::json::JsonView;
use crate::json::Number;
use crate::multiplicity::Multiplicity;
use crate::multiplicity::NonFunctional;
use crate::url::is_canonical;
use crate::url::parsed_url;
use crate::url::Url;
use crate::vocabulary::ActivityStreamsType;
use crate::vocabulary::LinkRelation;
use vstd::prelude::*;

verus! {

/// Whether an optional tree holds the given value, or both hold nothing.
pub open spec fn same_json(tree: Option<Json>, value: Option<JsonView>) -> bool {
    match tree {
        Some(json) => value == Some(json@),
        None => value is None,
    }
}

// ---------------------------------------------------------------------------
// The type tag
// ---------------------------------------------------------------------------
/// The tree that a type is written as: its name.
pub open spec fn type_json(tag: ActivityStreamsType) -> Option<JsonView> {
    Some(JsonView::String(tag.tag_spec()))
}

/// The type that a tree is read as: the one it names.
pub open spec fn type_of(json: JsonView) -> Option<ActivityStreamsType> {
    match json {
        JsonView::String(text) => ActivityStreamsType::from_tag_spec(text),
        _ => None,
    }
}

/// Reading what a type is written as gives the type back.
pub proof fn lemma_type_round_trip(tag: ActivityStreamsType)
    ensures
        type_json(tag) matches Some(json) && type_of(json) == Some(tag),
{
    tag.lemma_tag_round_trip();
}

/// Writes a type: its name.
pub fn type_to_json(tag: ActivityStreamsType) -> (r: Option<Json>)
    ensures
        same_json(r, type_json(tag)),
{
    Some(Json::String(tag.tag().to_owned()))
}

/// Reads a type; `None` where the tree names none.
pub fn type_from_json(json: &Json) -> (r: Option<ActivityStreamsType>)
    ensures
        r == type_of(json@),
{
    match json {
        Json::String(text) => ActivityStreamsType::from_tag(text.as_str()),
        _ => None,
    }
}

// ---------------------------------------------------------------------------
// An optional URL
// ---------------------------------------------------------------------------
/// The value of an optional URL.
pub open spec fn address_view(address: Option<Url>) -> Option<Seq<char>> {
    match address {
        Some(url) => Some(url@),
        None => None,
    }
}

/// The tree that an optional URL is written as: its serialization, or
/// nothing at all.
pub open spec fn address_json(address: Option<Seq<char>>) -> Option<JsonView> {
    match address {
        Some(url) => Some(JsonView::String(url)),
        None => None,
    }
}

/// The optional URL that a tree is read as.
pub open spec fn address_of(json: JsonView) -> Option<Option<Seq<char>>> {
    match json {
        JsonView::Null => Some(None),
        JsonView::String(text) => match parsed_url(text) {
            Some(canonical) => Some(Some(canonical)),
            None => None,
        },
        _ => None,
    }
}

/// An optional URL is canonical when the URL, if any, is serialized.
pub open spec fn address_wf(address: Option<Seq<char>>) -> bool {
    address matches Some(url) ==> is_canonical(url)
}

/// Reading what a canonical optional URL is written as gives it back.
pub proof fn lemma_address_round_trip(address: Option<Seq<char>>)
    requires
        address_wf(address),
    ensures
        match address_json(address) {
            Some(json) => address_of(json) == Some(address),
            None => address is None,
        },
{
}

/// Writes an optional URL; `None` where there is none to write.
pub fn address_to_json(address: &Option<Url>) -> (r: Option<Json>)
    ensures
        same_json(r, address_json(address_view(*address))),
{
    match address {
        Some(url) => Some(Json::String(url.as_str().to_owned())),
        None => None,
    }
}

/// Reads an optional URL; `None` where the tree is neither `null` nor a text
/// that is a URL.
pub fn address_from_json(json: &Json) -> (r: Option<Option<Url>>)
    ensures
        match address_of(json@) {
            Some(address) => r matches Some(read) && address_view(read) == address,
            None => r is None,
        },
{
    match json {
        Json::Null => Some(None),
        Json::String(text) => match Url::parse(text.as_str()) {
            Some(url) => Some(Some(url)),
            None => None,
        },
        _ => None,
    }
}

/// Whether an optional URL is canonical.
pub fn address_is_canonical(address: &Option<Url>) -> (r: bool)
    ensures
        r == address_wf(address_view(*address)),
{
    match address {
        Some(url) => url.is_canonical(),
        None => true,
    }
}

// ---------------------------------------------------------------------------
// An optional text
// ---------------------------------------------------------------------------
/// The value of an optional text.
pub open spec fn text_view(text: Option<String>) -> Option<Seq<char>> {
    match text {
        Some(text) => Some(text@),
        None => None,
    }
}

/// The tree that an optional text is written as.
pub open spec fn text_json(text: Option<Seq<char>>) -> Option<JsonView> {
    match text {
        Some(text) => Some(JsonView::String(text)),
        None => None,
    }
}

/// The optional text that a tree is read as.
pub open spec fn text_of(json: JsonView) -> Option<Option<Seq<char>>> {
    match json {
        JsonView::Null => Some(None),
        JsonView::String(text) => Some(Some(text)),
        _ => None,
    }
}

/// Reading what an optional text is written as gives it back.
pub proof fn lemma_text_round_trip(text: Option<Seq<char>>)
    ensures
        match text_json(text) {
            Some(json) => text_of(json) == Some(text),
            None => text is None,
        },
{
}

/// Writes an optional text; `None` where there is none to write.
pub fn text_to_json(text: &Option<String>) -> (r: Option<Json>)
    ensures
        same_json(r, text_json(text_view(*text))),
{
    match text {
        Some(text) => Some(Json::String(text.clone())),
        None => None,
    }
}

/// Reads an optional text; `None` where the tree is neither `null` nor a text.
pub fn text_from_json(json: &Json) -> (r: Option<Option<String>>)
    ensures
        match text_of(json@) {
            Some(text) => r matches Some(read) && text_view(read) == text,
            None => r is None,
        },
{
    match json {
        Json::Null => Some(None),
        Json::String(text) => Some(Some(text.clone())),
        _ => None,
    }
}

// ---------------------------------------------------------------------------
// An optional count
// ---------------------------------------------------------------------------
/// The tree that an optional count is written as.
pub open spec fn count_json(count: Option<u32>) -> Option<JsonView> {
    match count {
        Some(count) => Some(JsonView::Number(Number::Unsigned(count as u64))),
        None => None,
    }
}

/// The optional count that a tree is read as: a whole number of at most 32
/// bits.
pub open spec fn count_of(json: JsonView) -> Option<Option<u32>> {
    match json {
        JsonView::Null => Some(None),
        JsonView::Number(Number::Unsigned(count)) => if count <= u32::MAX {
            Some(Some(count as u32))
        } else {
            None
        },
        _ => None,
    }
}

/// Reading what an optional count is written as gives it back.
pub proof fn lemma_count_round_trip(count: Option<u32>)
    ensures
        match count_json(count) {
            Some(json) => count_of(json) == Some(count),
            None => count is None,
        },
{
}

/// Writes an optional count; `None` where there is none to write.
pub fn count_to_json(count: &Option<u32>) -> (r: Option<Json>)
    ensures
        same_json(r, count_json(*count)),
{
    match count {
        Some(count) => Some(Json::Number(Number::Unsigned(*count as u64))),
        None => None,
    }
}

/// Reads an optional count; `None` where the tree is neither `null` nor a
/// whole number of at most 32 bits.
pub fn count_from_json(json: &Json) -> (r: Option<Option<u32>>)
    ensures
        r == count_of(json@),
{
    match json {
        Json::Null => Some(None),
        Json::Number(Number::Unsigned(count)) => if *count <= u32::MAX as u64 {
            Some(Some(*count as u32))
        } else {
            None
        },
        _ => None,
    }
}

// ---------------------------------------------------------------------------
// An optional measure
// ---------------------------------------------------------------------------
/// The tree that an optional measure is written as.
pub open spec fn measure_json(measure: Option<Number>) -> Option<JsonView> {
    match measure {
        Some(number) => Some(JsonView::Number(number)),
        None => None,
    }
}

/// The optional measure that a tree is read as: any number.
pub open spec fn measure_of(json: JsonView) -> Option<Option<Number>> {
    match json {
        JsonView::Null => Some(None),
        JsonView::Number(number) => Some(Some(number)),
        _ => None,
    }
}

/// Reading what an optional measure is written as gives it back.
pub proof fn lemma_measure_round_trip(measure: Option<Number>)
    ensures
        match measure_json(measure) {
            Some(json) => measure_of(json) == Some(measure),
            None => measure is None,
        },
{
}

/// Writes an optional measure; `None` where there is none to write.
pub fn measure_to_json(measure: &Option<Number>) -> (r: Option<Json>)
    ensures
        same_json(r, measure_json(*measure)),
{
    match measure {
        Some(number) => Some(Json::Number(*number)),
        None => None,
    }
}

/// Reads an optional measure; `None` where the tree is neither `null` nor a
/// number.
pub fn measure_from_json(json: &Json) -> (r: Option<Option<Number>>)
    ensures
        r == measure_of(json@),
{
    match json {
        Json::Null => Some(None),
        Json::Number(number) => Some(Some(*number)),
        _ => None,
    }
}

// ---------------------------------------------------------------------------
// Zero, one or many texts
// ---------------------------------------------------------------------------
/// The values of a list of texts.
pub open spec fn text_list_view(texts: Seq<String>) -> Seq<Seq<char>> {
    texts.map_values(|text: String| text@)
}

/// The value of zero, one or many texts.
pub open spec fn texts_view(texts: NonFunctional<String>) -> Multiplicity<Seq<char>> {
    match texts {
        NonFunctional::Absent => Multiplicity::Absent,
        NonFunctional::One(one) => Multiplicity::One(one@),
        NonFunctional::Many(many) => Multiplicity::Many(text_list_view(many@)),
    }
}

/// The tree that texts are written as: nothing, the text, or an array.
pub open spec fn texts_json(texts: Multiplicity<Seq<char>>) -> Option<JsonView> {
    match texts {
        Multiplicity::Absent => None,
        Multiplicity::One(one) => Some(JsonView::String(one)),
        Multiplicity::Many(many) => if many.len() == 0 {
            None
        } else {
            Some(JsonView::Array(many.map_values(|text: Seq<char>| JsonView::String(text))))
        },
    }
}

/// Whether every tree of a list is a text.
pub open spec fn all_texts(items: Seq<JsonView>) -> bool {
    forall|i: int| 0 <= i < items.len() ==> (#[trigger] items[i]) is String
}

/// The texts that a tree is read as.
pub open spec fn texts_of(json: JsonView) -> Option<Multiplicity<Seq<char>>> {
    match json {
        JsonView::Null => Some(Multiplicity::Absent),
        JsonView::String(text) => Some(Multiplicity::One(text)),
        JsonView::Array(items) => if !all_texts(items) {
            None
        } else if items.len() == 0 {
            Some(Multiplicity::Absent)
        } else {
            Some(Multiplicity::Many(items.map_values(|item: JsonView| item->String_0)))
        },
        _ => None,
    }
}

/// Reading what normal texts are written as gives them back.
pub proof fn lemma_texts_round_trip(texts: Multiplicity<Seq<char>>)
    requires
        texts.is_normal(),
    ensures
        match texts_json(texts) {
            Some(json) => texts_of(json) == Some(texts),
            None => texts is Absent,
        },
{
    if let Multiplicity::Many(many) = texts {
        let items = many.map_values(|text: Seq<char>| JsonView::String(text));
        assert(all_texts(items));
        assert(items.map_values(|item: JsonView| item->String_0) =~= many);
    }
}

/// Writes zero, one or many texts; `None` where there is none to write.
pub fn texts_to_json(texts: &NonFunctional<String>) -> (r: Option<Json>)
    ensures
        same_json(r, texts_json(texts_view(*texts))),
{
    match texts {
        NonFunctional::Absent => None,
        NonFunctional::One(one) => Some(Json::String(one.clone())),
        NonFunctional::Many(many) => {
            if many.len() == 0 {
                return None;
            }
            let mut items: Vec<Json> = Vec::new();
            let mut i: usize = 0;
            while i < many.len()
                invariant
                    i <= many.len(),
                    items@.len() == i,
                    forall|k: int| 0 <= k < i ==> (#[trigger] items@[k])@ == JsonView::String(many@[k]@),
                decreases many.len() - i,
            {
                items.push(Json::String(many[i].clone()));
                i = i + 1;
            }
            proof {
                lemma_items_view(items@);
                assert(items_view(items@) =~= text_list_view(many@).map_values(
                    |text: Seq<char>| JsonView::String(text),
                ));
            }
            Some(Json::Array(items))
        },
    }
}

/// Reads zero, one or many texts; `None` where the tree is neither `null`, a
/// text, nor an array of texts. An empty array is read as nothing.
pub fn texts_from_json(json: &Json) -> (r: Option<NonFunctional<String>>)
    ensures
        match texts_of(json@) {
            Some(texts) => r matches Some(read) && texts_view(read) == texts,
            None => r is None,
        },
        r matches Some(read) ==> texts_view(read).is_normal(),
{
    match json {
        Json::Null => Some(NonFunctional::Absent),
        Json::String(text) => Some(NonFunctional::One(text.clone())),
        Json::Array(items) => {
            let mut many: Vec<String> = Vec::new();
            let mut i: usize = 0;
            proof {
                lemma_items_view(items@);
            }
            while i < items.len()
                invariant
                    i <= items.len(),
                    many@.len() == i,
                    json is Array,
                    json->Array_0 == *items,
                    items_view(items@).len() == items@.len(),
                    forall|k: int| 0 <= k < items@.len() ==> #[trigger] items_view(items@)[k] == items@[k]@,
                    forall|k: int|
                        0 <= k < i ==> (#[trigger] items_view(items@)[k]) is String && many@[k]@
                            == items_view(items@)[k]->String_0,
                decreases items.len() - i,
            {
                match &items[i] {
                    Json::String(text) => {
                        many.push(text.clone());
                    },
                    _ => {
                        assert(!(items_view(items@)[i as int] is String));
                        return None;
                    },
                }
                i = i + 1;
            }
            assert(all_texts(items_view(items@)));
            if many.len() == 0 {
                Some(NonFunctional::Absent)
            } else {
                assert(text_list_view(many@) =~= items_view(items@).map_values(
                    |item: JsonView| item->String_0,
                ));
                Some(NonFunctional::Many(many))
            }
        },
        _ => None,
    }
}

/// Whether texts are in normal form.
pub fn texts_are_canonical(texts: &NonFunctional<String>) -> (r: bool)
    ensures
        r == texts_view(*texts).is_normal(),
{
    texts.is_normalized()
}

// ---------------------------------------------------------------------------
// Zero, one or many link relations
// ---------------------------------------------------------------------------
/// The value of zero, one or many relations.
pub open spec fn relations_view(relations: NonFunctional<LinkRelation>) -> Multiplicity<LinkRelation> {
    match relations {
        NonFunctional::Absent => Multiplicity::Absent,
        NonFunctional::One(one) => Multiplicity::One(one),
        NonFunctional::Many(many) => Multiplicity::Many(many@),
    }
}

/// The tree that relations are written as: nothing, the keyword, or an
/// array of keywords.
pub open spec fn relations_json(relations: Multiplicity<LinkRelation>) -> Option<JsonView> {
    match relations {
        Multiplicity::Absent => None,
        Multiplicity::One(one) => Some(JsonView::String(one.tag_spec())),
        Multiplicity::Many(many) => if many.len() == 0 {
            None
        } else {
            Some(
                JsonView::Array(
                    many.map_values(|relation: LinkRelation| JsonView::String(relation.tag_spec())),
                ),
            )
        },
    }
}

/// The relation that a tree is read as.
pub open spec fn relation_of(json: JsonView) -> Option<LinkRelation> {
    match json {
        JsonView::String(text) => LinkRelation::from_tag_spec(text),
        _ => None,
    }
}

/// Whether every tree of a list is a relation.
pub open spec fn all_relations(items: Seq<JsonView>) -> bool {
    forall|i: int| 0 <= i < items.len() ==> relation_of(#[trigger] items[i]) is Some
}

/// The relations that a tree is read as.
pub open spec fn relations_of(json: JsonView) -> Option<Multiplicity<LinkRelation>> {
    match json {
        JsonView::Null => Some(Multiplicity::Absent),
        JsonView::String(text) => match LinkRelation::from_tag_spec(text) {
            Some(relation) => Some(Multiplicity::One(relation)),
            None => None,
        },
        JsonView::Array(items) => if !all_relations(items) {
            None
        } else if items.len() == 0 {
            Some(Multiplicity::Absent)
        } else {
            Some(Multiplicity::Many(items.map_values(|item: JsonView| relation_of(item)->0)))
        },
        _ => None,
    }
}

/// Reading what normal relations are written as gives them back.
pub proof fn lemma_relations_round_trip(relations: Multiplicity<LinkRelation>)
    requires
        relations.is_normal(),
    ensures
        match relations_json(relations) {
            Some(json) => relations_of(json) == Some(relations),
            None => relations is Absent,
        },
{
    match relations {
        Multiplicity::Absent => {},
        Multiplicity::One(one) => {
            one.lemma_tag_round_trip();
        },
        Multiplicity::Many(many) => {
            let items = many.map_values(|relation: LinkRelation| JsonView::String(relation.tag_spec()));
            assert forall|i: int| 0 <= i < items.len() implies relation_of(#[trigger] items[i]) == Some(
                many[i],
            ) by {
                many[i].lemma_tag_round_trip();
            }
            assert(all_relations(items));
            assert(items.map_values(|item: JsonView| relation_of(item)->0) =~= many);
        },
    }
}

/// Writes zero, one or many relations; `None` where there is none to write.
pub fn relations_to_json(relations: &NonFunctional<LinkRelation>) -> (r: Option<Json>)
    ensures
        same_json(r, relations_json(relations_view(*relations))),
{
    match relations {
        NonFunctional::Absent => None,
        NonFunctional::One(one) => Some(Json::String(one.tag().to_owned())),
        NonFunctional::Many(many) => {
            if many.len() == 0 {
                return None;
            }
            let mut items: Vec<Json> = Vec::new();
            let mut i: usize = 0;
            while i < many.len()
                invariant
                    i <= many.len(),
                    items@.len() == i,
                    forall|k: int|
                        0 <= k < i ==> (#[trigger] items@[k])@ == JsonView::String(many@[k].tag_spec()),
                decreases many.len() - i,
            {
                items.push(Json::String(many[i].tag().to_owned()));
                i = i + 1;
            }
            proof {
                lemma_items_view(items@);
                assert(items_view(items@) =~= many@.map_values(
                    |relation: LinkRelation| JsonView::String(relation.tag_spec()),
                ));
            }
            Some(Json::Array(items))
        },
    }
}

/// Reads a relation; `None` where the tree is no keyword of a relation.
pub fn relation_from_json(json: &Json) -> (r: Option<LinkRelation>)
    ensures
        r == relation_of(json@),
{
    match json {
        Json::String(text) => LinkRelation::from_tag(text.as_str()),
        _ => None,
    }
}

/// Reads zero, one or many relations; `None` where the tree is neither
/// `null`, a keyword, nor an array of keywords. An empty array is read as
/// nothing.
pub fn relations_from_json(json: &Json) -> (r: Option<NonFunctional<LinkRelation>>)
    ensures
        match relations_of(json@) {
            Some(relations) => r matches Some(read) && relations_view(read) == relations,
            None => r is None,
        },
        r matches Some(read) ==> relations_view(read).is_normal(),
{
    match json {
        Json::Null => Some(NonFunctional::Absent),
        Json::String(text) => match LinkRelation::from_tag(text.as_str()) {
            Some(relation) => Some(NonFunctional::One(relation)),
            None => None,
        },
        Json::Array(items) => {
            let mut many: Vec<LinkRelation> = Vec::new();
            let mut i: usize = 0;
            proof {
                lemma_items_view(items@);
            }
            while i < items.len()
                invariant
                    i <= items.len(),
                    many@.len() == i,
                    json is Array,
                    json->Array_0 == *items,
                    items_view(items@).len() == items@.len(),
                    forall|k: int| 0 <= k < items@.len() ==> #[trigger] items_view(items@)[k] == items@[k]@,
                    forall|k: int|
                        0 <= k < i ==> relation_of(#[trigger] items_view(items@)[k]) == Some(many@[k]),
                decreases items.len() - i,
            {
                match relation_from_json(&items[i]) {
                    Some(relation) => {
                        many.push(relation);
                    },
                    None => {
                        assert(relation_of(items_view(items@)[i as int]) is None);
                        return None;
                    },
                }
                i = i + 1;
            }
            assert(all_relations(items_view(items@)));
            if many.len() == 0 {
                Some(NonFunctional::Absent)
            } else {
                assert(many@ =~= items_view(items@).map_values(|item: JsonView| relation_of(item)->0));
                Some(NonFunctional::Many(many))
            }
        },
        _ => None,
    }
}

/// Whether relations are in normal form.
pub fn relations_are_canonical(relations: &NonFunctional<LinkRelation>) -> (r: bool)
    ensures
        r == relations_view(*relations).is_normal(),
{
    relations.is_normalized()
}

} // verus!
