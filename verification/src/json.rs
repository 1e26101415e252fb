//! JSON documents as trees, with the entries of an object in document order.

use crate::text::same_text;
use vstd::prelude::*;

verus! {

/// A JSON number: a non-negative integer, a negative integer, or the bits of
/// a finite double-precision value.
#[derive(Debug, Clone, Copy, PartialEq, Eq, Structural)]
pub enum Number {
    Unsigned(u64),
    Signed(i64),
    Real(u64),
}

/// A JSON document as a tree. The entries of an object keep the order in
/// which the document lists them.
#[derive(Debug, PartialEq, Eq)]
pub enum Json {
    Null,
    Bool(bool),
    Number(Number),
    String(String),
    Array(Vec<Json>),
    Object(Vec<(String, Json)>),
}

/// The mathematical value of a [`Json`] tree.
pub ghost enum JsonView {
    Null,
    Bool(bool),
    Number(Number),
    String(Seq<char>),
    Array(Seq<JsonView>),
    Object(Seq<(Seq<char>, JsonView)>),
}

/// The value of a tree.
pub open spec fn json_view(json: Json) -> JsonView
    decreases json, 0nat,
{
    match json {
        Json::Null => JsonView::Null,
        Json::Bool(b) => JsonView::Bool(b),
        Json::Number(n) => JsonView::Number(n),
        Json::String(s) => JsonView::String(s@),
        Json::Array(items) => JsonView::Array(items_view_upto(items@, items@.len())),
        Json::Object(entries) => JsonView::Object(entries_view_upto(entries@, entries@.len())),
    }
}

/// The values of the first `n` trees of a list.
pub open spec fn items_view_upto(items: Seq<Json>, n: nat) -> Seq<JsonView>
    decreases items, n,
{
    if n == 0 || n > items.len() {
        Seq::empty()
    } else {
        items_view_upto(items, (n - 1) as nat).push(json_view(items[n - 1]))
    }
}

/// The keys and values of the first `n` entries of an object.
pub open spec fn entries_view_upto(entries: Seq<(String, Json)>, n: nat) -> Seq<(Seq<char>, JsonView)>
    decreases entries, n,
{
    if n == 0 || n > entries.len() {
        Seq::empty()
    } else {
        entries_view_upto(entries, (n - 1) as nat).push((entries[n - 1].0@, json_view(entries[n - 1].1)))
    }
}

/// The values of a list of trees.
pub open spec fn items_view(items: Seq<Json>) -> Seq<JsonView> {
    items_view_upto(items, items.len())
}

/// The keys and values of the entries of an object.
pub open spec fn entries_view(entries: Seq<(String, Json)>) -> Seq<(Seq<char>, JsonView)> {
    entries_view_upto(entries, entries.len())
}

/// `items_view_upto` maps the first `n` trees one by one.
pub proof fn lemma_items_view_upto(items: Seq<Json>, n: nat)
    requires
        n <= items.len(),
    ensures
        items_view_upto(items, n).len() == n,
        forall|i: int| 0 <= i < n ==> #[trigger] items_view_upto(items, n)[i] == json_view(items[i]),
    decreases n,
{
    if n > 0 {
        lemma_items_view_upto(items, (n - 1) as nat);
    }
}

/// `entries_view_upto` maps the first `n` entries one by one.
pub proof fn lemma_entries_view_upto(entries: Seq<(String, Json)>, n: nat)
    requires
        n <= entries.len(),
    ensures
        entries_view_upto(entries, n).len() == n,
        forall|i: int| 0 <= i < n ==> #[trigger] entries_view_upto(entries, n)[i] == (
            entries[i].0@,
            json_view(entries[i].1),
        ),
    decreases n,
{
    if n > 0 {
        lemma_entries_view_upto(entries, (n - 1) as nat);
    }
}

/// The view of a list of trees has one value for each tree, in order.
pub proof fn lemma_items_view(items: Seq<Json>)
    ensures
        items_view(items).len() == items.len(),
        forall|i: int| 0 <= i < items.len() ==> #[trigger] items_view(items)[i] == json_view(items[i]),
{
    lemma_items_view_upto(items, items.len());
}

/// The view of the entries of an object has one pair for each entry, in order.
pub proof fn lemma_entries_view(entries: Seq<(String, Json)>)
    ensures
        entries_view(entries).len() == entries.len(),
        forall|i: int| 0 <= i < entries.len() ==> #[trigger] entries_view(entries)[i] == (
            entries[i].0@,
            json_view(entries[i].1),
        ),
{
    lemma_entries_view_upto(entries, entries.len());
}

/// The index of the first entry under `key`, if there is one.
pub open spec fn position(entries: Seq<(Seq<char>, JsonView)>, key: Seq<char>) -> Option<int>
    decreases entries.len(),
{
    if entries.len() == 0 {
        None
    } else {
        match position(entries.drop_last(), key) {
            Some(i) => Some(i),
            None => if entries.last().0 == key {
                Some(entries.len() - 1)
            } else {
                None
            },
        }
    }
}

/// The value of the first entry under `key`, if there is one.
pub open spec fn lookup(entries: Seq<(Seq<char>, JsonView)>, key: Seq<char>) -> Option<JsonView> {
    match position(entries, key) {
        Some(i) => if 0 <= i < entries.len() {
            Some(entries[i].1)
        } else {
            None
        },
        None => None,
    }
}

/// Whether some entry stands under `key`.
pub open spec fn has_key(entries: Seq<(Seq<char>, JsonView)>, key: Seq<char>) -> bool {
    position(entries, key) is Some
}

/// Whether no two entries stand under the same key.
pub open spec fn distinct_keys(entries: Seq<(Seq<char>, JsonView)>) -> bool {
    forall|i: int, j: int|
        0 <= i < j < entries.len() ==> (#[trigger] entries[i]).0 != (#[trigger] entries[j]).0
}

/// `position` gives the least index whose entry has the key, and `None`
/// exactly when no entry has it.
pub proof fn lemma_position(entries: Seq<(Seq<char>, JsonView)>, key: Seq<char>)
    ensures
        match position(entries, key) {
            Some(i) => {
                &&& 0 <= i < entries.len()
                &&& entries[i].0 == key
                &&& forall|j: int| 0 <= j < i ==> (#[trigger] entries[j]).0 != key
            },
            None => forall|j: int| 0 <= j < entries.len() ==> (#[trigger] entries[j]).0 != key,
        },
    decreases entries.len(),
{
    if entries.len() > 0 {
        lemma_position(entries.drop_last(), key);
        match position(entries.drop_last(), key) {
            Some(i) => {
                assert(entries.drop_last()[i] == entries[i]);
                assert forall|j: int| 0 <= j < i implies (#[trigger] entries[j]).0 != key by {
                    assert(entries.drop_last()[j] == entries[j]);
                }
            },
            None => {
                assert forall|j: int| 0 <= j < entries.len() - 1 implies (#[trigger] entries[j]).0
                    != key by {
                    assert(entries.drop_last()[j] == entries[j]);
                }
            },
        }
    }
}

/// An index whose entry has the key, with no such entry before it, is the
/// position of the key.
pub proof fn lemma_position_is(entries: Seq<(Seq<char>, JsonView)>, key: Seq<char>, i: int)
    requires
        0 <= i < entries.len(),
        entries[i].0 == key,
        forall|j: int| 0 <= j < i ==> (#[trigger] entries[j]).0 != key,
    ensures
        position(entries, key) == Some(i),
        lookup(entries, key) == Some(entries[i].1),
{
    lemma_position(entries, key);
}

/// Where no entry has the key, there is no position for it.
pub proof fn lemma_position_none(entries: Seq<(Seq<char>, JsonView)>, key: Seq<char>)
    requires
        forall|j: int| 0 <= j < entries.len() ==> (#[trigger] entries[j]).0 != key,
    ensures
        position(entries, key) is None,
        lookup(entries, key) is None,
{
    lemma_position(entries, key);
}

/// Looking a key up in two lists joined finds it in the first list, and
/// only otherwise in the second.
pub proof fn lemma_lookup_concat(
    front: Seq<(Seq<char>, JsonView)>,
    back: Seq<(Seq<char>, JsonView)>,
    key: Seq<char>,
)
    ensures
        lookup(front + back, key) == if lookup(front, key) is Some {
            lookup(front, key)
        } else {
            lookup(back, key)
        },
{
    let whole = front + back;
    lemma_position(front, key);
    lemma_position(back, key);
    match position(front, key) {
        Some(i) => {
            assert(whole[i] == front[i]);
            assert forall|j: int| 0 <= j < i implies (#[trigger] whole[j]).0 != key by {
                assert(whole[j] == front[j]);
            }
            lemma_position_is(whole, key, i);
        },
        None => match position(back, key) {
            Some(i) => {
                let at = front.len() + i;
                assert(whole[at] == back[i]);
                assert forall|j: int| 0 <= j < at implies (#[trigger] whole[j]).0 != key by {
                    if j < front.len() {
                        assert(whole[j] == front[j]);
                    } else {
                        assert(whole[j] == back[j - front.len()]);
                    }
                }
                lemma_position_is(whole, key, at);
            },
            None => {
                assert forall|j: int| 0 <= j < whole.len() implies (#[trigger] whole[j]).0 != key by {
                    if j < front.len() {
                        assert(whole[j] == front[j]);
                    } else {
                        assert(whole[j] == back[j - front.len()]);
                    }
                }
                lemma_position_none(whole, key);
            },
        },
    }
}

/// Finds the first entry under `key`.
pub fn find<'a>(entries: &'a Vec<(String, Json)>, key: &str) -> (r: Option<&'a Json>)
    ensures
        match lookup(entries_view(entries@), key@) {
            Some(value) => r matches Some(found) && found@ == value,
            None => r is None,
        },
        r matches Some(found) ==> exists|i: int| 0 <= i < entries@.len() && entries@[i].1 == *found,
{
    let mut i: usize = 0;
    proof {
        lemma_entries_view(entries@);
    }
    while i < entries.len()
        invariant
            i <= entries.len(),
            entries_view(entries@).len() == entries@.len(),
            forall|k: int|
                0 <= k < entries@.len() ==> #[trigger] entries_view(entries@)[k] == (
                    entries@[k].0@,
                    json_view(entries@[k].1),
                ),
            forall|k: int| 0 <= k < i ==> (#[trigger] entries_view(entries@)[k]).0 != key@,
        decreases entries.len() - i,
    {
        if same_text(entries[i].0.as_str(), key) {
            proof {
                lemma_position_is(entries_view(entries@), key@, i as int);
            }
            return Some(&entries[i].1);
        }
        i = i + 1;
    }
    proof {
        lemma_position_none(entries_view(entries@), key@);
    }
    None
}

impl View for Json {
    type V = JsonView;

    open spec fn view(&self) -> JsonView {
        json_view(*self)
    }
}

impl Clone for Json {
    /// A copy of this tree.
    fn clone(&self) -> (r: Json)
        ensures
            r@ == self@,
        decreases self,
    {
        match self {
            Json::Null => Json::Null,
            Json::Bool(b) => Json::Bool(*b),
            Json::Number(n) => Json::Number(*n),
            Json::String(s) => Json::String(s.clone()),
            Json::Array(items) => {
                let mut copy: Vec<Json> = Vec::new();
                let mut i: usize = 0;
                while i < items.len()
                    invariant
                        i <= items.len(),
                        copy@.len() == i,
                        forall|k: int| 0 <= k < i ==> copy@[k]@ == items@[k]@,
                        self is Array,
                        self->Array_0 == *items,
                    decreases items.len() - i,
                {
                    copy.push(items[i].clone());
                    i = i + 1;
                }
                proof {
                    lemma_items_view(copy@);
                    lemma_items_view(items@);
                    assert(items_view(copy@) =~= items_view(items@));
                }
                Json::Array(copy)
            },
            Json::Object(entries) => {
                let mut copy: Vec<(String, Json)> = Vec::new();
                let mut i: usize = 0;
                while i < entries.len()
                    invariant
                        i <= entries.len(),
                        copy@.len() == i,
                        forall|k: int|
                            0 <= k < i ==> copy@[k].0@ == entries@[k].0@ && copy@[k].1@ == entries@[k].1@,
                        self is Object,
                        self->Object_0 == *entries,
                    decreases entries.len() - i,
                {
                    copy.push((entries[i].0.clone(), entries[i].1.clone()));
                    i = i + 1;
                }
                proof {
                    lemma_entries_view(copy@);
                    lemma_entries_view(entries@);
                    assert(entries_view(copy@) =~= entries_view(entries@));
                }
                Json::Object(copy)
            },
        }
    }
}

} // verus!
