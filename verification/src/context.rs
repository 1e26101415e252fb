//! The `@context` of a document: its shapes, and how it is read and written.

use crate::json::entries_view;
use crate::json::items_view;
use crate::json::lemma_entries_view;
use crate::json::lemma_items_view;
use crate::json::Json;
use crate::json::JsonView;
use crate::text::same_text;
use crate::url::is_canonical;
use crate::url::parsed_url;
use crate::url::Url;
use vstd::prelude::*;

verus! {

/// The context that every ActivityStreams document has unless it names another.
pub const ACTIVITYSTREAMS_CONTEXT: &'static str = "https://www.w3.org/ns/activitystreams";

/// The value of the `@context` property: a URL, a plain text, a list of
/// terms with a context each, or a list of contexts.
#[derive(Debug, PartialEq, Eq)]
pub enum ActivityStreamsContext {
    Url(Url),
    String(String),
    Terms(Vec<(String, ActivityStreamsContext)>),
    List(Vec<ActivityStreamsContext>),
}

/// The mathematical value of an [`ActivityStreamsContext`].
pub ghost enum ContextView {
    Url(Seq<char>),
    String(Seq<char>),
    Terms(Seq<(Seq<char>, ContextView)>),
    List(Seq<ContextView>),
}

/// The value of a context.
pub open spec fn context_view(context: ActivityStreamsContext) -> ContextView
    decreases context, 0nat,
{
    match context {
        ActivityStreamsContext::Url(url) => ContextView::Url(url@),
        ActivityStreamsContext::String(text) => ContextView::String(text@),
        ActivityStreamsContext::Terms(terms) => ContextView::Terms(terms_view_upto(terms@, terms@.len())),
        ActivityStreamsContext::List(list) => ContextView::List(list_view_upto(list@, list@.len())),
    }
}

/// The values of the first `n` terms.
pub open spec fn terms_view_upto(terms: Seq<(String, ActivityStreamsContext)>, n: nat) -> Seq<
    (Seq<char>, ContextView),
>
    decreases terms, n,
{
    if n == 0 || n > terms.len() {
        Seq::empty()
    } else {
        terms_view_upto(terms, (n - 1) as nat).push((terms[n - 1].0@, context_view(terms[n - 1].1)))
    }
}

/// The values of the first `n` contexts of a list.
pub open spec fn list_view_upto(list: Seq<ActivityStreamsContext>, n: nat) -> Seq<ContextView>
    decreases list, n,
{
    if n == 0 || n > list.len() {
        Seq::empty()
    } else {
        list_view_upto(list, (n - 1) as nat).push(context_view(list[n - 1]))
    }
}

/// `terms_view_upto` maps the first `n` terms one by one.
pub proof fn lemma_terms_view_upto(terms: Seq<(String, ActivityStreamsContext)>, n: nat)
    requires
        n <= terms.len(),
    ensures
        terms_view_upto(terms, n).len() == n,
        forall|i: int| 0 <= i < n ==> #[trigger] terms_view_upto(terms, n)[i] == (
            terms[i].0@,
            context_view(terms[i].1),
        ),
    decreases n,
{
    if n > 0 {
        lemma_terms_view_upto(terms, (n - 1) as nat);
    }
}

/// `list_view_upto` maps the first `n` contexts one by one.
pub proof fn lemma_list_view_upto(list: Seq<ActivityStreamsContext>, n: nat)
    requires
        n <= list.len(),
    ensures
        list_view_upto(list, n).len() == n,
        forall|i: int| 0 <= i < n ==> #[trigger] list_view_upto(list, n)[i] == context_view(list[i]),
    decreases n,
{
    if n > 0 {
        lemma_list_view_upto(list, (n - 1) as nat);
    }
}

impl View for ActivityStreamsContext {
    type V = ContextView;

    open spec fn view(&self) -> ContextView {
        context_view(*self)
    }
}

/// The context that a text stands for: a URL where the text is one.
pub open spec fn text_context(text: Seq<char>) -> ContextView {
    match parsed_url(text) {
        Some(canonical) => ContextView::Url(canonical),
        None => ContextView::String(text),
    }
}

/// The tree that a context is written as.
pub open spec fn context_json(context: ContextView) -> JsonView
    decreases context, 0nat,
{
    match context {
        ContextView::Url(url) => JsonView::String(url),
        ContextView::String(text) => JsonView::String(text),
        ContextView::Terms(terms) => JsonView::Object(terms_json_upto(terms, terms.len())),
        ContextView::List(list) => JsonView::Array(list_json_upto(list, list.len())),
    }
}

/// The entries that the first `n` terms are written as.
pub open spec fn terms_json_upto(terms: Seq<(Seq<char>, ContextView)>, n: nat) -> Seq<
    (Seq<char>, JsonView),
>
    decreases terms, n,
{
    if n == 0 || n > terms.len() {
        Seq::empty()
    } else {
        terms_json_upto(terms, (n - 1) as nat).push((terms[n - 1].0, context_json(terms[n - 1].1)))
    }
}

/// The trees that the first `n` contexts of a list are written as.
pub open spec fn list_json_upto(list: Seq<ContextView>, n: nat) -> Seq<JsonView>
    decreases list, n,
{
    if n == 0 || n > list.len() {
        Seq::empty()
    } else {
        list_json_upto(list, (n - 1) as nat).push(context_json(list[n - 1]))
    }
}

/// The context that a tree is read as; `None` where it has none of the
/// four shapes.
pub open spec fn context_of(json: JsonView) -> Option<ContextView>
    decreases json, 0nat,
{
    match json {
        JsonView::String(text) => Some(text_context(text)),
        JsonView::Object(entries) => match terms_of_upto(entries, entries.len()) {
            Some(terms) => Some(ContextView::Terms(terms)),
            None => None,
        },
        JsonView::Array(items) => match list_of_upto(items, items.len()) {
            Some(list) => Some(ContextView::List(list)),
            None => None,
        },
        _ => None,
    }
}

/// Whether some term goes by `name`.
pub open spec fn has_term(terms: Seq<(Seq<char>, ContextView)>, name: Seq<char>) -> bool {
    exists|i: int| 0 <= i < terms.len() && (#[trigger] terms[i]).0 == name
}

/// Whether no two terms go by the same name.
pub open spec fn distinct_terms(terms: Seq<(Seq<char>, ContextView)>) -> bool {
    forall|i: int, j: int| 0 <= i < j < terms.len() ==> (#[trigger] terms[i]).0 != (#[trigger] terms[j]).0
}

/// The terms that the first `n` entries are read as; `None` where one of
/// them holds no context. Of several entries under one key, the first
/// counts.
pub open spec fn terms_of_upto(entries: Seq<(Seq<char>, JsonView)>, n: nat) -> Option<
    Seq<(Seq<char>, ContextView)>,
>
    decreases entries, n,
{
    if n == 0 || n > entries.len() {
        Some(Seq::empty())
    } else {
        match (terms_of_upto(entries, (n - 1) as nat), context_of(entries[n - 1].1)) {
            (Some(terms), Some(context)) => if has_term(terms, entries[n - 1].0) {
                Some(terms)
            } else {
                Some(terms.push((entries[n - 1].0, context)))
            },
            _ => None,
        }
    }
}

/// The contexts that the first `n` trees are read as; `None` where one of
/// them is no context.
pub open spec fn list_of_upto(items: Seq<JsonView>, n: nat) -> Option<Seq<ContextView>>
    decreases items, n,
{
    if n == 0 || n > items.len() {
        Some(Seq::empty())
    } else {
        match (list_of_upto(items, (n - 1) as nat), context_of(items[n - 1])) {
            (Some(list), Some(context)) => Some(list.push(context)),
            _ => None,
        }
    }
}

/// A context is canonical when reading what it is written as gives it back:
/// its URLs are absolute URLs in their serialized form, its plain texts are
/// no URLs, and no two of its terms go by the same name.
pub open spec fn context_wf(context: ContextView) -> bool
    decreases context, 0nat,
{
    match context {
        ContextView::Url(url) => is_canonical(url),
        ContextView::String(text) => parsed_url(text) is None,
        ContextView::Terms(terms) => distinct_terms(terms) && terms_wf_upto(terms, terms.len()),
        ContextView::List(list) => list_wf_upto(list, list.len()),
    }
}

/// Whether the first `n` terms hold canonical contexts.
pub open spec fn terms_wf_upto(terms: Seq<(Seq<char>, ContextView)>, n: nat) -> bool
    decreases terms, n,
{
    if n == 0 || n > terms.len() {
        true
    } else {
        terms_wf_upto(terms, (n - 1) as nat) && context_wf(terms[n - 1].1)
    }
}

/// Whether the first `n` contexts of a list are canonical.
pub open spec fn list_wf_upto(list: Seq<ContextView>, n: nat) -> bool
    decreases list, n,
{
    if n == 0 || n > list.len() {
        true
    } else {
        list_wf_upto(list, (n - 1) as nat) && context_wf(list[n - 1])
    }
}

/// `terms_wf_upto` holds exactly when each of the first `n` terms holds a
/// canonical context.
pub proof fn lemma_terms_wf_upto(terms: Seq<(Seq<char>, ContextView)>, n: nat)
    requires
        n <= terms.len(),
    ensures
        terms_wf_upto(terms, n) <==> forall|i: int| 0 <= i < n ==> context_wf((#[trigger] terms[i]).1),
    decreases n,
{
    if n > 0 {
        lemma_terms_wf_upto(terms, (n - 1) as nat);
        if forall|i: int| 0 <= i < n ==> context_wf((#[trigger] terms[i]).1) {
            assert(context_wf(terms[n - 1].1));
        }
    }
}

/// `list_wf_upto` holds exactly when each of the first `n` contexts is
/// canonical.
pub proof fn lemma_list_wf_upto(list: Seq<ContextView>, n: nat)
    requires
        n <= list.len(),
    ensures
        list_wf_upto(list, n) <==> forall|i: int| 0 <= i < n ==> context_wf(#[trigger] list[i]),
    decreases n,
{
    if n > 0 {
        lemma_list_wf_upto(list, (n - 1) as nat);
        if forall|i: int| 0 <= i < n ==> context_wf(#[trigger] list[i]) {
            assert(context_wf(list[n - 1]));
        }
    }
}

/// Reading what a canonical context is written as gives the context back.
pub proof fn lemma_context_round_trip(context: ContextView)
    requires
        context_wf(context),
    ensures
        context_of(context_json(context)) == Some(context),
    decreases context, 0nat,
{
    match context {
        ContextView::Url(url) => {},
        ContextView::String(text) => {},
        ContextView::Terms(terms) => {
            lemma_terms_round_trip(terms, terms.len());
            assert(terms.take(terms.len() as int) =~= terms);
            assert(terms_of_upto(terms_json_upto(terms, terms.len()), terms.len()) == Some(terms));
        },
        ContextView::List(list) => {
            lemma_list_round_trip(list, list.len());
            assert(list.take(list.len() as int) =~= list);
            assert(list_of_upto(list_json_upto(list, list.len()), list.len()) == Some(list));
        },
    }
}

/// Reading what the first `n` canonical terms are written as gives them back.
pub proof fn lemma_terms_round_trip(terms: Seq<(Seq<char>, ContextView)>, n: nat)
    requires
        n <= terms.len(),
        distinct_terms(terms),
        terms_wf_upto(terms, n),
    ensures
        terms_json_upto(terms, n).len() == n,
        forall|m: nat|
            n <= m <= terms.len() ==> terms_of_upto(#[trigger] terms_json_upto(terms, m), n) == Some(
                terms.take(n as int),
            ),
    decreases terms, n,
{
    if n == 0 {
        assert(terms.take(0) =~= Seq::empty());
    } else {
        lemma_terms_round_trip(terms, (n - 1) as nat);
        lemma_context_round_trip(terms[n - 1].1);
        assert(!has_term(terms.take(n - 1), terms[n - 1].0)) by {
            if has_term(terms.take(n - 1), terms[n - 1].0) {
                let i = choose|i: int|
                    0 <= i < terms.take(n - 1).len() && (#[trigger] terms.take(n - 1)[i]).0 == terms[n
                        - 1].0;
                assert(terms.take(n - 1)[i] == terms[i]);
                assert(terms[i].0 != terms[n - 1].0);
            }
        }
        assert forall|m: nat| n <= m <= terms.len() implies terms_of_upto(
            #[trigger] terms_json_upto(terms, m),
            n,
        ) == Some(terms.take(n as int)) by {
            lemma_terms_json_upto(terms, m);
            assert(terms.take(n as int) =~= terms.take(n - 1).push(terms[n - 1]));
        }
    }
}

/// `terms_json_upto` maps the first `n` terms one by one.
pub proof fn lemma_terms_json_upto(terms: Seq<(Seq<char>, ContextView)>, n: nat)
    requires
        n <= terms.len(),
    ensures
        terms_json_upto(terms, n).len() == n,
        forall|i: int| 0 <= i < n ==> #[trigger] terms_json_upto(terms, n)[i] == (
            terms[i].0,
            context_json(terms[i].1),
        ),
    decreases n,
{
    if n > 0 {
        lemma_terms_json_upto(terms, (n - 1) as nat);
    }
}

/// `list_json_upto` maps the first `n` contexts one by one.
pub proof fn lemma_list_json_upto(list: Seq<ContextView>, n: nat)
    requires
        n <= list.len(),
    ensures
        list_json_upto(list, n).len() == n,
        forall|i: int| 0 <= i < n ==> #[trigger] list_json_upto(list, n)[i] == context_json(list[i]),
    decreases n,
{
    if n > 0 {
        lemma_list_json_upto(list, (n - 1) as nat);
    }
}

/// Reading what the first `n` canonical contexts of a list are written as
/// gives them back.
pub proof fn lemma_list_round_trip(list: Seq<ContextView>, n: nat)
    requires
        n <= list.len(),
        list_wf_upto(list, n),
    ensures
        list_json_upto(list, n).len() == n,
        forall|m: nat|
            n <= m <= list.len() ==> list_of_upto(#[trigger] list_json_upto(list, m), n) == Some(
                list.take(n as int),
            ),
    decreases list, n,
{
    if n == 0 {
        assert(list.take(0) =~= Seq::empty());
    } else {
        lemma_list_round_trip(list, (n - 1) as nat);
        lemma_context_round_trip(list[n - 1]);
        assert forall|m: nat| n <= m <= list.len() implies list_of_upto(
            #[trigger] list_json_upto(list, m),
            n,
        ) == Some(list.take(n as int)) by {
            lemma_list_json_upto(list, m);
            assert(list.take(n as int) =~= list.take(n - 1).push(list[n - 1]));
        }
    }
}

/// Once an entry holds no context, reading further entries gives nothing.
pub proof fn lemma_terms_of_none(entries: Seq<(Seq<char>, JsonView)>, n: nat, m: nat)
    requires
        n <= m <= entries.len(),
        terms_of_upto(entries, n) is None,
    ensures
        terms_of_upto(entries, m) is None,
    decreases m,
{
    if n < m {
        lemma_terms_of_none(entries, n, (m - 1) as nat);
    }
}

/// `list_of_upto` succeeds exactly when each of the first `n` trees is a
/// context, and then maps them one by one.
pub proof fn lemma_list_of_upto(items: Seq<JsonView>, n: nat)
    requires
        n <= items.len(),
    ensures
        list_of_upto(items, n) is Some <==> forall|i: int|
            0 <= i < n ==> (#[trigger] context_of(items[i])) is Some,
        list_of_upto(items, n) matches Some(list) ==> list.len() == n && forall|i: int|
            0 <= i < n ==> #[trigger] list[i] == context_of(items[i])->0,
    decreases n,
{
    if n > 0 {
        lemma_list_of_upto(items, (n - 1) as nat);
        if forall|i: int| 0 <= i < n ==> (#[trigger] context_of(items[i])) is Some {
            assert(context_of(items[n - 1]) is Some);
            assert(list_of_upto(items, (n - 1) as nat) is Some);
        }
        if list_of_upto(items, n) is Some {
            assert forall|i: int| 0 <= i < n implies (#[trigger] context_of(items[i])) is Some by {
                if i < n - 1 {
                }
            }
        }
    }
}

/// Whether some term goes by `name`.
fn names_term(terms: &Vec<(String, ActivityStreamsContext)>, name: &str) -> (r: bool)
    ensures
        r == has_term(terms_view_upto(terms@, terms@.len()), name@),
{
    let mut i: usize = 0;
    proof {
        lemma_terms_view_upto(terms@, terms@.len());
    }
    while i < terms.len()
        invariant
            i <= terms.len(),
            terms_view_upto(terms@, terms@.len()).len() == terms@.len(),
            forall|k: int|
                0 <= k < terms@.len() ==> #[trigger] terms_view_upto(terms@, terms@.len())[k] == (
                    terms@[k].0@,
                    context_view(terms@[k].1),
                ),
            forall|k: int| 0 <= k < i ==> (#[trigger] terms_view_upto(terms@, terms@.len())[k]).0 != name@,
        decreases terms.len() - i,
    {
        if same_text(terms[i].0.as_str(), name) {
            assert(terms_view_upto(terms@, terms@.len())[i as int].0 == name@);
            return true;
        }
        i = i + 1;
    }
    false
}

/// Whether one of the first `n` terms goes by `name`.
fn names_term_before(terms: &Vec<(String, ActivityStreamsContext)>, n: usize, name: &str) -> (r: bool)
    requires
        n <= terms@.len(),
    ensures
        r == exists|k: int| 0 <= k < n && (#[trigger] terms@[k]).0@ == name@,
{
    let mut i: usize = 0;
    while i < n
        invariant
            i <= n <= terms@.len(),
            forall|k: int| 0 <= k < i ==> (#[trigger] terms@[k]).0@ != name@,
        decreases n - i,
    {
        if same_text(terms[i].0.as_str(), name) {
            return true;
        }
        i = i + 1;
    }
    false
}

impl ActivityStreamsContext {
    /// Whether this context is canonical.
    pub fn is_canonical(&self) -> (r: bool)
        ensures
            r == context_wf(self@),
        decreases self,
    {
        match self {
            ActivityStreamsContext::Url(url) => url.is_canonical(),
            ActivityStreamsContext::String(text) => Url::parse(text.as_str()).is_none(),
            ActivityStreamsContext::Terms(terms) => {
                let ghost views = terms_view_upto(terms@, terms@.len());
                proof {
                    lemma_terms_view_upto(terms@, terms@.len());
                    lemma_terms_wf_upto(views, views.len());
                }
                let mut i: usize = 0;
                while i < terms.len()
                    invariant
                        i <= terms.len(),
                        self is Terms,
                        self->Terms_0 == *terms,
                        views == terms_view_upto(terms@, terms@.len()),
                        views.len() == terms@.len(),
                        forall|k: int|
                            0 <= k < terms@.len() ==> #[trigger] views[k] == (
                                terms@[k].0@,
                                context_view(terms@[k].1),
                            ),
                        forall|a: int, b: int|
                            0 <= a < b < i ==> (#[trigger] views[a]).0 != (#[trigger] views[b]).0,
                        forall|k: int| 0 <= k < i ==> context_wf((#[trigger] views[k]).1),
                        terms_wf_upto(views, views.len()) <==> forall|k: int|
                            0 <= k < views.len() ==> context_wf((#[trigger] views[k]).1),
                    decreases terms.len() - i,
                {
                    if names_term_before(terms, i, terms[i].0.as_str()) {
                        proof {
                            let k = choose|k: int| 0 <= k < i && (#[trigger] terms@[k]).0@ == terms@[i as int].0@;
                            assert(views[k].0 == views[i as int].0);
                        }
                        return false;
                    }
                    if !terms[i].1.is_canonical() {
                        assert(!context_wf(views[i as int].1));
                        return false;
                    }
                    proof {
                        assert forall|a: int, b: int| 0 <= a < b < i + 1 implies (#[trigger] views[a]).0 != (
                        #[trigger] views[b]).0 by {
                            if b == i {
                                assert(terms@[a].0@ != terms@[i as int].0@);
                            }
                        }
                    }
                    i = i + 1;
                }
                true
            },
            ActivityStreamsContext::List(list) => {
                let ghost views = list_view_upto(list@, list@.len());
                proof {
                    lemma_list_view_upto(list@, list@.len());
                    lemma_list_wf_upto(views, views.len());
                }
                let mut i: usize = 0;
                while i < list.len()
                    invariant
                        i <= list.len(),
                        self is List,
                        self->List_0 == *list,
                        views == list_view_upto(list@, list@.len()),
                        views.len() == list@.len(),
                        forall|k: int| 0 <= k < list@.len() ==> #[trigger] views[k] == context_view(list@[k]),
                        forall|k: int| 0 <= k < i ==> context_wf(#[trigger] views[k]),
                        list_wf_upto(views, views.len()) <==> forall|k: int|
                            0 <= k < views.len() ==> context_wf(#[trigger] views[k]),
                    decreases list.len() - i,
                {
                    if !list[i].is_canonical() {
                        assert(!context_wf(views[i as int]));
                        return false;
                    }
                    i = i + 1;
                }
                true
            },
        }
    }

    /// The tree that this context is written as.
    pub fn to_json(&self) -> (r: Json)
        ensures
            r@ == context_json(self@),
        decreases self,
    {
        match self {
            ActivityStreamsContext::Url(url) => Json::String(url.as_str().to_owned()),
            ActivityStreamsContext::String(text) => Json::String(text.clone()),
            ActivityStreamsContext::Terms(terms) => {
                let mut entries: Vec<(String, Json)> = Vec::new();
                let mut i: usize = 0;
                while i < terms.len()
                    invariant
                        i <= terms.len(),
                        entries@.len() == i,
                        forall|k: int|
                            0 <= k < i ==> entries@[k].0@ == terms@[k].0@ && entries@[k].1@ == context_json(
                                context_view(terms@[k].1),
                            ),
                        self is Terms,
                        self->Terms_0 == *terms,
                    decreases terms.len() - i,
                {
                    entries.push((terms[i].0.clone(), terms[i].1.to_json()));
                    i = i + 1;
                }
                proof {
                    let views = terms_view_upto(terms@, terms@.len());
                    lemma_terms_view_upto(terms@, terms@.len());
                    lemma_terms_json_upto(views, views.len());
                    lemma_entries_view(entries@);
                    assert(entries_view(entries@) =~= terms_json_upto(views, views.len()));
                }
                Json::Object(entries)
            },
            ActivityStreamsContext::List(list) => {
                let mut items: Vec<Json> = Vec::new();
                let mut i: usize = 0;
                while i < list.len()
                    invariant
                        i <= list.len(),
                        items@.len() == i,
                        forall|k: int| 0 <= k < i ==> items@[k]@ == context_json(context_view(list@[k])),
                        self is List,
                        self->List_0 == *list,
                    decreases list.len() - i,
                {
                    items.push(list[i].to_json());
                    i = i + 1;
                }
                proof {
                    let views = list_view_upto(list@, list@.len());
                    lemma_list_view_upto(list@, list@.len());
                    lemma_list_json_upto(views, views.len());
                    lemma_items_view(items@);
                    assert(items_view(items@) =~= list_json_upto(views, views.len()));
                }
                Json::Array(items)
            },
        }
    }

    /// The context that a tree is read as; `None` where it has none of the
    /// four shapes.
    pub fn from_json(json: &Json) -> (r: Option<ActivityStreamsContext>)
        ensures
            match context_of(json@) {
                Some(context) => r matches Some(read) && read@ == context,
                None => r is None,
            },
        decreases json,
    {
        match json {
            Json::String(text) => match Url::parse(text.as_str()) {
                Some(url) => Some(ActivityStreamsContext::Url(url)),
                None => Some(ActivityStreamsContext::String(text.clone())),
            },
            Json::Object(entries) => {
                let mut terms: Vec<(String, ActivityStreamsContext)> = Vec::new();
                let mut i: usize = 0;
                proof {
                    lemma_entries_view(entries@);
                    lemma_terms_view_upto(terms@, 0);
                }
                while i < entries.len()
                    invariant
                        i <= entries.len(),
                        entries_view(entries@).len() == entries@.len(),
                        forall|k: int|
                            0 <= k < entries@.len() ==> #[trigger] entries_view(entries@)[k] == (
                                entries@[k].0@,
                                entries@[k].1@,
                            ),
                        terms_of_upto(entries_view(entries@), i as nat) == Some(
                            terms_view_upto(terms@, terms@.len()),
                        ),
                        json is Object,
                        json->Object_0 == *entries,
                    decreases entries.len() - i,
                {
                    let ghost views = entries_view(entries@);
                    let ghost before = terms_view_upto(terms@, terms@.len());
                    proof {
                        lemma_terms_view_upto(terms@, terms@.len());
                    }
                    match ActivityStreamsContext::from_json(&entries[i].1) {
                        Some(context) => {
                            if !names_term(&terms, entries[i].0.as_str()) {
                                terms.push((entries[i].0.clone(), context));
                            }
                        },
                        None => {
                            proof {
                                assert(context_of(views[i as int].1) is None);
                                lemma_terms_of_none(views, (i + 1) as nat, views.len());
                            }
                            return None;
                        },
                    }
                    proof {
                        lemma_terms_view_upto(terms@, terms@.len());
                        if terms@.len() as int != before.len() {
                            assert(terms_view_upto(terms@, terms@.len()) =~= before.push(
                                (views[i as int].0, context_of(views[i as int].1)->0),
                            ));
                        } else {
                            assert(terms_view_upto(terms@, terms@.len()) =~= before);
                        }
                    }
                    i = i + 1;
                }
                Some(ActivityStreamsContext::Terms(terms))
            },
            Json::Array(items) => {
                let mut list: Vec<ActivityStreamsContext> = Vec::new();
                let mut i: usize = 0;
                while i < items.len()
                    invariant
                        i <= items.len(),
                        list@.len() == i,
                        forall|k: int|
                            #![trigger items@[k]]
                            0 <= k < i ==> context_of(items@[k]@) is Some && context_view(list@[k])
                                == context_of(items@[k]@)->0,
                        json is Array,
                        json->Array_0 == *items,
                    decreases items.len() - i,
                {
                    match ActivityStreamsContext::from_json(&items[i]) {
                        Some(context) => {
                            list.push(context);
                        },
                        None => {
                            proof {
                                lemma_items_view(items@);
                                lemma_list_of_upto(items_view(items@), items@.len() as nat);
                                assert(context_of(items_view(items@)[i as int]) is None);
                            }
                            return None;
                        },
                    }
                    i = i + 1;
                }
                proof {
                    let views = items_view(items@);
                    lemma_items_view(items@);
                    lemma_list_of_upto(views, views.len());
                    assert forall|k: int| 0 <= k < views.len() implies (#[trigger] context_of(
                        views[k],
                    )) is Some by {
                        assert(views[k] == items@[k]@);
                    }
                    lemma_list_view_upto(list@, list@.len());
                    assert(list_view_upto(list@, list@.len()) =~= list_of_upto(views, views.len())->0);
                }
                Some(ActivityStreamsContext::List(list))
            },
            _ => None,
        }
    }
}

impl Default for ActivityStreamsContext {
    /// The ActivityStreams context itself.
    fn default() -> (r: ActivityStreamsContext)
        ensures
            r@ == text_context(ACTIVITYSTREAMS_CONTEXT@),
    {
        match Url::parse(ACTIVITYSTREAMS_CONTEXT) {
            Some(url) => ActivityStreamsContext::Url(url),
            None => ActivityStreamsContext::String(ACTIVITYSTREAMS_CONTEXT.to_owned()),
        }
    }
}

} // verus!
