//! Resolving links: which URLs await a fetch, and what the outcomes of the
//! fetches make of the links.

use crate::error::Error;
use crate::error::FetchError;
use crate::json::Json;
use crate::json::JsonView;
use crate::link::lemma_link_list_view;
use crate::link::link_list_view;
use crate::link::link_option_view;
use crate::link::link_view;
use crate::link::links_view;
use crate::link::LinkObject;
use crate::link::LinkView;
use crate::multiplicity::Multiplicity;
use crate::multiplicity::NonFunctional;
use crate::object::object_of;
use crate::object::object_view;
use crate::object::Object;
use crate::object::ObjectView;
use crate::url::Url;
use vstd::prelude::*;

verus! {

/// What a fetch of a remote object came to.
pub type Outcome = Result<Object, FetchError>;

/// The mathematical value of an [`Outcome`].
pub type OutcomeView = Result<ObjectView, FetchError>;

/// The value of an outcome.
pub open spec fn outcome_view(outcome: Outcome) -> OutcomeView {
    match outcome {
        Ok(object) => Ok(object_view(object)),
        Err(error) => Err(error),
    }
}

/// What an answer to a request comes to: a status outside the 2xx range is a
/// failure with that status; a body that is missing or cannot be read as an
/// object is malformed; anything else is the object that the body holds.
pub open spec fn response_outcome(status: u16, body: Option<JsonView>) -> OutcomeView {
    if status < 200 || status > 299 {
        Err(FetchError::Status(status))
    } else {
        match body {
            Some(json) => match object_of(json) {
                Ok(object) => Ok(object),
                Err(_) => Err(FetchError::Malformed),
            },
            None => Err(FetchError::Malformed),
        }
    }
}

/// The value of an optional tree.
pub open spec fn body_view(body: Option<&Json>) -> Option<JsonView> {
    match body {
        Some(json) => Some(json@),
        None => None,
    }
}

/// What an answer to a request comes to, from its status and the tree of
/// its body, if the body is JSON at all.
pub fn outcome_of(status: u16, body: Option<&Json>) -> (r: Outcome)
    ensures
        outcome_view(r) == response_outcome(status, body_view(body)),
{
    if status < 200 || status > 299 {
        Err(FetchError::Status(status))
    } else {
        match body {
            Some(json) => match Object::from_json(json) {
                Ok(object) => Ok(object),
                Err(_) => Err(FetchError::Malformed),
            },
            None => Err(FetchError::Malformed),
        }
    }
}

/// The values of a list of outcomes.
pub open spec fn outcomes_view(outcomes: Seq<Outcome>) -> Seq<OutcomeView> {
    outcomes.map_values(|outcome: Outcome| outcome_view(outcome))
}

/// The values of a list of URLs.
pub open spec fn urls_view(urls: Seq<Url>) -> Seq<Seq<char>> {
    urls.map_values(|url: Url| url@)
}

/// How many of the first `n` links are URLs that await a fetch.
pub open spec fn pending_count(links: Seq<LinkView>, n: nat) -> nat
    decreases n,
{
    if n == 0 || n > links.len() {
        0
    } else if links[n - 1] is Url {
        pending_count(links, (n - 1) as nat) + 1
    } else {
        pending_count(links, (n - 1) as nat)
    }
}

/// The URLs among the first `n` links, in order.
pub open spec fn pending_urls(links: Seq<LinkView>, n: nat) -> Seq<Seq<char>>
    decreases n,
{
    if n == 0 || n > links.len() {
        Seq::empty()
    } else if links[n - 1] is Url {
        pending_urls(links, (n - 1) as nat).push(links[n - 1]->Url_0)
    } else {
        pending_urls(links, (n - 1) as nat)
    }
}

/// A link after the outcomes are applied, where `rank` URLs stand before it:
/// a URL whose outcome is an object becomes that object; any other link
/// stays as it is.
pub open spec fn settle_link(link: LinkView, rank: nat, outcomes: Seq<OutcomeView>) -> LinkView {
    if link is Url && rank < outcomes.len() && outcomes[rank as int] is Ok {
        LinkView::Object(Box::new(outcomes[rank as int]->Ok_0))
    } else {
        link
    }
}

/// A list of links after the outcomes are applied: the first outcome goes
/// to the first URL, the second to the second, and so on.
pub open spec fn settle_list(links: Seq<LinkView>, outcomes: Seq<OutcomeView>) -> Seq<LinkView> {
    Seq::new(links.len(), |i: int| settle_link(links[i], pending_count(links, i as nat), outcomes))
}

/// The first failure among the first `n` outcomes.
pub open spec fn first_failure(outcomes: Seq<OutcomeView>, n: nat) -> Option<FetchError>
    decreases n,
{
    if n == 0 || n > outcomes.len() {
        None
    } else {
        match first_failure(outcomes, (n - 1) as nat) {
            Some(error) => Some(error),
            None => match outcomes[n - 1] {
                Err(error) => Some(error),
                Ok(_) => None,
            },
        }
    }
}

/// How many of the outcomes are applied where `pending` URLs await one.
pub open spec fn applied(outcomes: Seq<OutcomeView>, pending: nat) -> nat {
    if pending <= outcomes.len() {
        pending
    } else {
        outcomes.len()
    }
}

/// What applying the outcomes to `pending` URLs returns: the first failure
/// among the outcomes applied, or success where there is none.
pub open spec fn verdict(outcomes: Seq<OutcomeView>, pending: nat) -> Result<(), Error> {
    match first_failure(outcomes, applied(outcomes, pending)) {
        Some(error) => Err(Error::Fetch(error)),
        None => Ok(()),
    }
}

/// The URLs that links await a fetch of, in order.
pub open spec fn links_pending(links: Multiplicity<LinkView>) -> Seq<Seq<char>> {
    pending_urls(links.elements(), links.elements().len())
}

/// Links after the outcomes are applied.
pub open spec fn links_settled(links: Multiplicity<LinkView>, outcomes: Seq<OutcomeView>) -> Multiplicity<
    LinkView,
> {
    match links {
        Multiplicity::Absent => Multiplicity::Absent,
        Multiplicity::One(one) => Multiplicity::One(settle_link(one, 0, outcomes)),
        Multiplicity::Many(many) => Multiplicity::Many(settle_list(many, outcomes)),
    }
}

/// The URL that an optional link awaits a fetch of, if any.
pub open spec fn link_pending(link: Option<LinkView>) -> Seq<Seq<char>> {
    match link {
        Some(LinkView::Url(url)) => seq![url],
        _ => Seq::empty(),
    }
}

/// An optional link after the outcomes are applied.
pub open spec fn link_settled(link: Option<LinkView>, outcomes: Seq<OutcomeView>) -> Option<LinkView> {
    match link {
        Some(link) => Some(settle_link(link, 0, outcomes)),
        None => None,
    }
}

/// There are as many pending URLs among the first `n` links as
/// `pending_count` says.
pub proof fn lemma_pending_urls_len(links: Seq<LinkView>, n: nat)
    ensures
        pending_urls(links, n).len() == pending_count(links, n),
        pending_count(links, n) <= n,
    decreases n,
{
    if n > 0 && n <= links.len() {
        lemma_pending_urls_len(links, (n - 1) as nat);
    }
}

/// The URL of a single link, if it is one.
fn pending_one(link: &LinkObject, urls: &mut Vec<Url>)
    ensures
        urls_view(final(urls)@) == if link@ is Url {
            urls_view(old(urls)@).push(link@->Url_0)
        } else {
            urls_view(old(urls)@)
        },
{
    match link {
        LinkObject::Url(url) => {
            urls.push(url.clone());
            assert(urls_view(urls@) =~= urls_view(old(urls)@).push(link@->Url_0));
        },
        LinkObject::Object(_) => {},
    }
}

/// Applies the first remaining outcome to a link that is a URL.
fn resolve_one(link: &mut LinkObject, outcomes: &mut Vec<Outcome>, failure: &mut Option<FetchError>)
    ensures
        final(link)@ == settle_link(old(link)@, 0, outcomes_view(old(outcomes)@)),
        outcomes_view(final(outcomes)@) == if old(link)@ is Url && old(outcomes)@.len() > 0 {
            outcomes_view(old(outcomes)@).skip(1)
        } else {
            outcomes_view(old(outcomes)@)
        },
        *final(failure) == if *old(failure) is None && old(link)@ is Url && old(outcomes)@.len() > 0
            && old(outcomes)@[0] is Err {
            Some(old(outcomes)@[0]->Err_0)
        } else {
            *old(failure)
        },
{
    let pending = match link {
        LinkObject::Url(_) => true,
        LinkObject::Object(_) => false,
    };
    if pending && outcomes.len() > 0 {
        let outcome = outcomes.remove(0);
        assert(outcomes_view(outcomes@) =~= outcomes_view(old(outcomes)@).skip(1));
        match outcome {
            Ok(object) => {
                *link = LinkObject::Object(Box::new(object));
            },
            Err(error) => {
                if failure.is_none() {
                    *failure = Some(error);
                }
            },
        }
    }
}

// ---------------------------------------------------------------------------
// What awaits a fetch, and what a fetch makes of it
// ---------------------------------------------------------------------------
/// A value whose links can be resolved: it says which URLs await a fetch,
/// and takes what the fetches came to.
pub trait Resolve {
    /// The mathematical value of the implementing type.
    type Model;

    /// The value of `self`.
    spec fn model(&self) -> Self::Model;

    /// The URLs that a value awaits a fetch of, in order.
    spec fn pending_of(model: Self::Model) -> Seq<Seq<char>>;

    /// A value after the outcomes of the fetches are applied, the first
    /// outcome to the first URL and so on.
    spec fn settled(model: Self::Model, outcomes: Seq<OutcomeView>) -> Self::Model;

    /// The URLs that await a fetch, in order. A link that holds an object
    /// awaits none.
    fn pending(&self) -> (urls: Vec<Url>)
        ensures
            urls_view(urls@) == Self::pending_of(self.model()),
    ;

    /// Applies the outcomes of the fetches: every URL whose outcome is an
    /// object becomes that object, every other link stays as it is. Returns
    /// the first failure among the outcomes applied.
    fn resolve(&mut self, outcomes: Vec<Outcome>) -> (r: Result<(), Error>)
        ensures
            final(self).model() == Self::settled(old(self).model(), outcomes_view(outcomes@)),
            r == verdict(outcomes_view(outcomes@), Self::pending_of(old(self).model()).len()),
    ;
}

impl Resolve for LinkObject {
    type Model = LinkView;

    open spec fn model(&self) -> LinkView {
        link_view(*self)
    }

    open spec fn pending_of(model: LinkView) -> Seq<Seq<char>> {
        link_pending(Some(model))
    }

    open spec fn settled(model: LinkView, outcomes: Seq<OutcomeView>) -> LinkView {
        settle_link(model, 0, outcomes)
    }

    fn pending(&self) -> (urls: Vec<Url>) {
        let mut urls: Vec<Url> = Vec::new();
        pending_one(self, &mut urls);
        assert(urls_view(urls@) =~= link_pending(Some(link_view(*self))));
        urls
    }

    fn resolve(&mut self, outcomes: Vec<Outcome>) -> (r: Result<(), Error>) {
        let mut outcomes = outcomes;
        let mut failure: Option<FetchError> = None;
        resolve_one(self, &mut outcomes, &mut failure);
        proof {
            reveal_with_fuel(first_failure, 2);
        }
        match failure {
            Some(error) => Err(Error::Fetch(error)),
            None => Ok(()),
        }
    }
}

/// The values of a list of values whose links can be resolved.
pub open spec fn models<T: Resolve>(values: Seq<T>) -> Seq<T::Model> {
    values.map_values(|value: T| value.model())
}

/// The URLs that the first `n` values of a list await a fetch of, in order.
pub open spec fn pending_upto<T: Resolve>(values: Seq<T::Model>, n: nat) -> Seq<Seq<char>>
    decreases n,
{
    if n == 0 || n > values.len() {
        Seq::empty()
    } else {
        pending_upto::<T>(values, (n - 1) as nat) + T::pending_of(values[n - 1])
    }
}

/// The outcomes that go to the value at a place of a list: as many as the
/// value awaits, after those that go to the values before it.
pub open spec fn share<T: Resolve>(values: Seq<T::Model>, place: int, outcomes: Seq<OutcomeView>) -> Seq<
    OutcomeView,
> {
    let before = pending_upto::<T>(values, place as nat).len();
    let own = T::pending_of(values[place]).len();
    outcomes.subrange(applied(outcomes, before) as int, applied(outcomes, before + own) as int)
}

/// A list of values after the outcomes are applied, each value with its
/// share of them.
pub open spec fn settled_all<T: Resolve>(values: Seq<T::Model>, outcomes: Seq<OutcomeView>) -> Seq<
    T::Model,
> {
    Seq::new(values.len(), |i: int| T::settled(values[i], share::<T>(values, i, outcomes)))
}

/// The first failure among the first `end` outcomes is the first failure
/// among the first `start` of them or, where there is none, the first among
/// those from `start` to `end`.
pub proof fn lemma_first_failure_split(outcomes: Seq<OutcomeView>, start: nat, end: nat)
    requires
        start <= end <= outcomes.len(),
    ensures
        first_failure(outcomes, end) == match first_failure(outcomes, start) {
            Some(error) => Some(error),
            None => first_failure(outcomes.subrange(start as int, end as int), (end - start) as nat),
        },
    decreases end,
{
    if start < end {
        lemma_first_failure_split(outcomes, start, (end - 1) as nat);
        let part = outcomes.subrange(start as int, end as int);
        let shorter = outcomes.subrange(start as int, end - 1);
        assert(part[end - start - 1] == outcomes[end - 1]);
        lemma_first_failure_prefix(part, shorter, (end - start - 1) as nat);
    }
}

/// The first failure among the first `n` outcomes depends on those `n`
/// alone.
pub proof fn lemma_first_failure_prefix(left: Seq<OutcomeView>, right: Seq<OutcomeView>, n: nat)
    requires
        n <= left.len(),
        n <= right.len(),
        forall|i: int| 0 <= i < n ==> left[i] == right[i],
    ensures
        first_failure(left, n) == first_failure(right, n),
    decreases n,
{
    if n > 0 {
        lemma_first_failure_prefix(left, right, (n - 1) as nat);
    }
}

/// Takes the first `n` outcomes off a list, or all of them where there are
/// fewer.
fn take_front(outcomes: &mut Vec<Outcome>, n: usize) -> (front: Vec<Outcome>)
    ensures
        front@ == old(outcomes)@.take(applied(outcomes_view(old(outcomes)@), n as nat) as int),
        final(outcomes)@ == old(outcomes)@.skip(applied(outcomes_view(old(outcomes)@), n as nat) as int),
{
    let mut front: Vec<Outcome> = Vec::new();
    let mut i: usize = 0;
    assert(outcomes@.skip(0) =~= outcomes@);
    assert(outcomes@.take(0) =~= front@);
    while i < n && outcomes.len() > 0
        invariant
            i <= n,
            i <= old(outcomes)@.len(),
            front@ == old(outcomes)@.take(i as int),
            outcomes@ == old(outcomes)@.skip(i as int),
        decreases n - i,
    {
        let first = outcomes.remove(0);
        front.push(first);
        assert(front@ =~= old(outcomes)@.take(i + 1));
        assert(outcomes@ =~= old(outcomes)@.skip(i + 1));
        i = i + 1;
    }
    front
}

/// The URLs that the values of a list await a fetch of, in order.
fn pending_each<T: Resolve>(values: &Vec<T>) -> (urls: Vec<Url>)
    ensures
        urls_view(urls@) == pending_upto::<T>(models(values@), values@.len() as nat),
{
    let mut urls: Vec<Url> = Vec::new();
    let mut j: usize = 0;
    assert(urls_view(urls@) =~= pending_upto::<T>(models(values@), 0));
    while j < values.len()
        invariant
            j <= values.len(),
            urls_view(urls@) == pending_upto::<T>(models(values@), j as nat),
        decreases values.len() - j,
    {
        let ghost before = urls_view(urls@);
        let mut more = values[j].pending();
        let ghost added = urls_view(more@);
        urls.append(&mut more);
        proof {
            assert(models(values@)[j as int] == values@[j as int].model());
            assert(urls_view(urls@) =~= before + added);
        }
        j = j + 1;
    }
    urls
}

/// Applies the outcomes to the values of a list, each value with its share.
fn resolve_each<T: Resolve>(values: &mut Vec<T>, outcomes: Vec<Outcome>) -> (r: Result<(), Error>)
    ensures
        final(values)@.len() == old(values)@.len(),
        models(final(values)@) == settled_all::<T>(models(old(values)@), outcomes_view(outcomes@)),
        r == verdict(
            outcomes_view(outcomes@),
            pending_upto::<T>(models(old(values)@), old(values)@.len() as nat).len(),
        ),
{
    let ghost origin = models(values@);
    let ghost given = outcomes_view(outcomes@);
    let mut left = outcomes;
    let mut failure: Option<FetchError> = None;
    let mut j: usize = 0;
    proof {
        assert(given.skip(0) =~= given);
    }
    while j < values.len()
        invariant
            j <= values.len(),
            values@.len() == old(values)@.len(),
            origin == models(old(values)@),
            origin.len() == values@.len(),
            given == outcomes_view(outcomes@),
            outcomes_view(left@) == given.skip(
                applied(given, pending_upto::<T>(origin, j as nat).len()) as int,
            ),
            forall|i: int|
                0 <= i < j ==> (#[trigger] values@[i]).model() == T::settled(
                    origin[i],
                    share::<T>(origin, i, given),
                ),
            forall|i: int| j <= i < values@.len() ==> (#[trigger] values@[i]).model() == origin[i],
            failure == first_failure(given, applied(given, pending_upto::<T>(origin, j as nat).len())),
        decreases values.len() - j,
    {
        let ghost before = values@;
        let ghost start = applied(given, pending_upto::<T>(origin, j as nat).len());
        let ghost rest = outcomes_view(left@);
        assert(values@[j as int].model() == origin[j as int]);
        let urls = values[j].pending();
        let own = urls.len();
        let ghost end = applied(given, pending_upto::<T>(origin, j as nat).len() + own as nat);
        let part = take_front(&mut left, own);
        proof {
            assert(urls_view(urls@).len() == urls@.len());
            assert(rest.len() == given.len() - start);
            assert(applied(rest, own as nat) == end - start);
            assert(outcomes_view(part@) =~= given.subrange(start as int, end as int));
            assert(outcomes_view(left@) =~= rest.skip(end - start));
            assert(rest.skip(end - start) =~= given.skip(end as int));
            assert(share::<T>(origin, j as int, given) == given.subrange(start as int, end as int));
            lemma_first_failure_split(given, start, end);
        }
        let r = values[j].resolve(part);
        if failure.is_none() {
            match r {
                Err(Error::Fetch(error)) => {
                    failure = Some(error);
                },
                _ => {},
            }
        }
        proof {
            assert(values@ =~= before.update(j as int, values@[j as int]));
            assert forall|i: int| 0 <= i < j + 1 implies (#[trigger] values@[i]).model() == T::settled(
                origin[i],
                share::<T>(origin, i, given),
            ) by {
                if i < j {
                    assert(values@[i] == before[i]);
                }
            }
            assert forall|i: int| j + 1 <= i < values@.len() implies (#[trigger] values@[i]).model()
                == origin[i] by {
                assert(values@[i] == before[i]);
            }
        }
        j = j + 1;
    }
    proof {
        assert(models(values@) =~= settled_all::<T>(origin, given));
    }
    match failure {
        Some(error) => Err(Error::Fetch(error)),
        None => Ok(()),
    }
}

impl<T: Resolve> Resolve for Option<T> {
    type Model = Option<T::Model>;

    open spec fn model(&self) -> Option<T::Model> {
        match self {
            Some(value) => Some(value.model()),
            None => None,
        }
    }

    open spec fn pending_of(model: Option<T::Model>) -> Seq<Seq<char>> {
        match model {
            Some(value) => T::pending_of(value),
            None => Seq::empty(),
        }
    }

    open spec fn settled(model: Option<T::Model>, outcomes: Seq<OutcomeView>) -> Option<T::Model> {
        match model {
            Some(value) => Some(T::settled(value, outcomes)),
            None => None,
        }
    }

    fn pending(&self) -> (urls: Vec<Url>) {
        match self {
            Some(value) => value.pending(),
            None => {
                let urls: Vec<Url> = Vec::new();
                assert(urls_view(urls@) =~= Seq::empty());
                urls
            },
        }
    }

    fn resolve(&mut self, outcomes: Vec<Outcome>) -> (r: Result<(), Error>) {
        match self {
            Some(value) => value.resolve(outcomes),
            None => Ok(()),
        }
    }
}

impl<T: Resolve> Resolve for NonFunctional<T> {
    type Model = Multiplicity<T::Model>;

    open spec fn model(&self) -> Multiplicity<T::Model> {
        match self {
            NonFunctional::Absent => Multiplicity::Absent,
            NonFunctional::One(one) => Multiplicity::One(one.model()),
            NonFunctional::Many(many) => Multiplicity::Many(models(many@)),
        }
    }

    open spec fn pending_of(model: Multiplicity<T::Model>) -> Seq<Seq<char>> {
        match model {
            Multiplicity::Absent => Seq::empty(),
            Multiplicity::One(one) => T::pending_of(one),
            Multiplicity::Many(many) => pending_upto::<T>(many, many.len()),
        }
    }

    open spec fn settled(model: Multiplicity<T::Model>, outcomes: Seq<OutcomeView>) -> Multiplicity<
        T::Model,
    > {
        match model {
            Multiplicity::Absent => Multiplicity::Absent,
            Multiplicity::One(one) => Multiplicity::One(T::settled(one, outcomes)),
            Multiplicity::Many(many) => Multiplicity::Many(settled_all::<T>(many, outcomes)),
        }
    }

    fn pending(&self) -> (urls: Vec<Url>) {
        match self {
            NonFunctional::Absent => {
                let urls: Vec<Url> = Vec::new();
                assert(urls_view(urls@) =~= Seq::empty());
                urls
            },
            NonFunctional::One(one) => one.pending(),
            NonFunctional::Many(many) => pending_each(many),
        }
    }

    fn resolve(&mut self, outcomes: Vec<Outcome>) -> (r: Result<(), Error>) {
        match self {
            NonFunctional::Absent => Ok(()),
            NonFunctional::One(one) => one.resolve(outcomes),
            NonFunctional::Many(many) => resolve_each(many, outcomes),
        }
    }
}

// ---------------------------------------------------------------------------
// Links in particular
// ---------------------------------------------------------------------------
/// For links, the URLs that the first `n` of a list await are the URLs among
/// them.
pub proof fn lemma_links_pending_upto(links: Seq<LinkView>, n: nat)
    ensures
        pending_upto::<LinkObject>(links, n) == pending_urls(links, n),
    decreases n,
{
    if n > 0 && n <= links.len() {
        lemma_links_pending_upto(links, (n - 1) as nat);
        let before = pending_urls(links, (n - 1) as nat);
        if links[n - 1] is Url {
            assert(before + seq![links[n - 1]->Url_0] =~= before.push(links[n - 1]->Url_0));
        } else {
            assert(before + Seq::<Seq<char>>::empty() =~= before);
        }
    }
}

/// For links, each link's share of the outcomes is the one outcome at its
/// rank among the URLs, so that the list settles link by link.
pub proof fn lemma_links_settled_all(links: Seq<LinkView>, outcomes: Seq<OutcomeView>)
    ensures
        settled_all::<LinkObject>(links, outcomes) == settle_list(links, outcomes),
{
    assert forall|i: int| 0 <= i < links.len() implies #[trigger] settled_all::<LinkObject>(
        links,
        outcomes,
    )[i] == settle_list(links, outcomes)[i] by {
        lemma_links_pending_upto(links, i as nat);
        lemma_pending_urls_len(links, i as nat);
        let rank = pending_count(links, i as nat);
        let part = share::<LinkObject>(links, i, outcomes);
        if links[i] is Url && rank < outcomes.len() {
            assert(part[0] == outcomes[rank as int]);
        }
    }
    assert(settled_all::<LinkObject>(links, outcomes) =~= settle_list(links, outcomes));
}

/// The value of zero, one or many links as values to resolve is their value
/// as links.
pub proof fn lemma_links_model(links: NonFunctional<LinkObject>)
    ensures
        links.model() == links_view(links),
        NonFunctional::<LinkObject>::pending_of(links_view(links)) == links_pending(links_view(links)),
        forall|outcomes: Seq<OutcomeView>|
            #[trigger] NonFunctional::<LinkObject>::settled(links_view(links), outcomes) == links_settled(
                links_view(links),
                outcomes,
            ),
{
    match links {
        NonFunctional::Absent => {},
        NonFunctional::One(one) => {
            reveal_with_fuel(pending_urls, 2);
        },
        NonFunctional::Many(many) => {
            lemma_link_list_view(many@);
            assert(models(many@) =~= link_list_view(many@));
            lemma_links_pending_upto(link_list_view(many@), many@.len() as nat);
            assert forall|outcomes: Seq<OutcomeView>|
                #[trigger] NonFunctional::<LinkObject>::settled(links_view(links), outcomes)
                    == links_settled(links_view(links), outcomes) by {
                lemma_links_settled_all(link_list_view(many@), outcomes);
            }
        },
    }
}

/// The URLs that zero, one or many links await a fetch of, in order.
pub fn pending_links(links: &NonFunctional<LinkObject>) -> (urls: Vec<Url>)
    ensures
        urls_view(urls@) == links_pending(links_view(*links)),
{
    proof {
        lemma_links_model(*links);
    }
    links.pending()
}

/// Applies the outcomes of the fetches to zero, one or many links.
pub fn resolve_links(links: &mut NonFunctional<LinkObject>, outcomes: Vec<Outcome>) -> (r: Result<(), Error>)
    ensures
        links_view(*final(links)) == links_settled(links_view(*old(links)), outcomes_view(outcomes@)),
        r == verdict(outcomes_view(outcomes@), links_pending(links_view(*old(links))).len()),
{
    proof {
        lemma_links_model(*links);
    }
    let r = links.resolve(outcomes);
    proof {
        lemma_links_model(*links);
    }
    r
}

/// The URL that an optional link awaits a fetch of, if any.
pub fn pending_link(link: &Option<LinkObject>) -> (urls: Vec<Url>)
    ensures
        urls_view(urls@) == link_pending(link_option_view(*link)),
{
    link.pending()
}

/// Applies the outcomes of the fetches to an optional link.
pub fn resolve_link(link: &mut Option<LinkObject>, outcomes: Vec<Outcome>) -> (r: Result<(), Error>)
    ensures
        link_option_view(*final(link)) == link_settled(link_option_view(*old(link)), outcomes_view(outcomes@)),
        r == verdict(outcomes_view(outcomes@), link_pending(link_option_view(*old(link))).len()),
{
    link.resolve(outcomes)
}

// ---------------------------------------------------------------------------
// The object behind a link
// ---------------------------------------------------------------------------
impl LinkObject {
    /// The object that this link holds, if it holds one.
    pub open spec fn held(&self) -> Option<Object> {
        match self {
            LinkObject::Object(object) => Some(**object),
            LinkObject::Url(_) => None,
        }
    }

    /// The object that this link holds, to be changed in place; `None` for
    /// a URL.
    pub fn as_object_mut(&mut self) -> (r: Option<&mut Object>)
        ensures
            match old(self).held() {
                Some(object) => r matches Some(held) && *held == object && final(self).held() == Some(
                    *final(held),
                ),
                None => r is None && *final(self) == *old(self),
            },
    {
        match self {
            LinkObject::Object(object) => Some(&mut **object),
            LinkObject::Url(_) => None,
        }
    }
}

/// A value that stands for an object once it is resolved.
pub trait Resolved: Sized {
    /// The object that the value holds, if it holds one.
    spec fn object(&self) -> Option<Object>;

    /// The object that the value holds, to be changed in place. A value
    /// that still holds a URL is not resolved, and that is an error.
    fn resolved(&mut self) -> (r: Result<&mut Object, Error>)
        ensures
            match old(self).object() {
                Some(object) => r matches Ok(held) && *held == object && final(self).object() == Some(
                    *final(held),
                ),
                None => r matches Err(error) && error == Error::NotResolved && *final(self) == *old(
                    self,
                ),
            },
    ;
}

impl Resolved for LinkObject {
    open spec fn object(&self) -> Option<Object> {
        self.held()
    }

    fn resolved(&mut self) -> (r: Result<&mut Object, Error>) {
        match self.as_object_mut() {
            Some(object) => Ok(object),
            None => Err(Error::NotResolved),
        }
    }
}

} // verus!
