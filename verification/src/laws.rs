//! What holds of writing, reading and resolving in general.

use crate::error::Error;
use crate::error::FetchError;
use crate::json::JsonView;
use crate::link::lemma_object_json_is_object;
use crate::link::link_json;
use crate::link::link_of;
use crate::link::lemma_link_list_wf_upto;
use crate::link::link_list_wf_upto;
use crate::link::link_option_wf;
use crate::link::link_wf;
use crate::link::links_json;
use crate::link::links_wf;
use crate::link::LinkView;
use crate::multiplicity::Multiplicity;
use crate::object::object_wf;
use crate::object::ObjectView;
use crate::resolve::applied;
use crate::resolve::first_failure;
use crate::resolve::lemma_pending_urls_len;
use crate::resolve::link_pending;
use crate::resolve::link_settled;
use crate::resolve::links_pending;
use crate::resolve::links_settled;
use crate::resolve::pending_count;
use crate::resolve::pending_urls;
use crate::resolve::settle_list;
use crate::resolve::verdict;
use crate::resolve::OutcomeView;
use crate::scalars::relations_json;
use crate::scalars::texts_json;
use vstd::prelude::*;

verus! {

/// An empty list and `Absent` hold the same values, none, and are written
/// the same way: not at all.
pub proof fn lemma_empty_list_is_absent<V>()
    ensures
        Multiplicity::<V>::Many(Seq::empty()).elements() == Multiplicity::<V>::Absent.elements(),
        Multiplicity::<V>::Absent.elements().len() == 0,
        links_json(Multiplicity::Many(Seq::empty())) == links_json(Multiplicity::Absent),
        links_json(Multiplicity::Absent) is None,
        texts_json(Multiplicity::Many(Seq::empty())) == texts_json(Multiplicity::Absent),
        texts_json(Multiplicity::Absent) is None,
        relations_json(Multiplicity::Many(Seq::empty())) == relations_json(Multiplicity::Absent),
        relations_json(Multiplicity::Absent) is None,
{
}

/// A text is read as a link only as a URL and an object only as an object;
/// a URL is written as a text and an object as an object.
pub proof fn lemma_link_keeps_its_form(json: JsonView, link: LinkView)
    ensures
        json is String && link_of(json) is Some ==> link_of(json)->0 is Url,
        json is Object && link_of(json) is Some ==> link_of(json)->0 is Object,
        link is Url ==> link_json(link) is String,
        link is Object ==> link_json(link) is Object,
{
    if let LinkView::Object(object) = link {
        lemma_object_json_is_object(*object);
    }
}

/// Among links of which none awaits a fetch, none is a URL.
pub proof fn lemma_none_pending(links: Seq<LinkView>, n: nat)
    requires
        n <= links.len(),
        pending_count(links, n) == 0,
    ensures
        forall|i: int| 0 <= i < n ==> !((#[trigger] links[i]) is Url),
        forall|i: nat| i <= n ==> #[trigger] pending_count(links, i) == 0,
    decreases n,
{
    if n > 0 {
        lemma_none_pending(links, (n - 1) as nat);
    }
}

/// Resolving links of which none awaits a fetch changes nothing and
/// succeeds, whatever outcomes are handed in.
pub proof fn lemma_resolved_links_stay(links: Multiplicity<LinkView>, outcomes: Seq<OutcomeView>)
    requires
        links_pending(links).len() == 0,
    ensures
        links_settled(links, outcomes) == links,
        verdict(outcomes, links_pending(links).len()) == Ok::<(), Error>(()),
{
    match links {
        Multiplicity::Absent => {},
        Multiplicity::One(one) => {
            reveal_with_fuel(pending_urls, 2);
        },
        Multiplicity::Many(many) => {
            lemma_pending_urls_len(many, many.len());
            lemma_none_pending(many, many.len());
            assert(settle_list(many, outcomes) =~= many);
        },
    }
}

/// Resolving an optional link that awaits no fetch changes nothing and
/// succeeds.
pub proof fn lemma_resolved_link_stays(link: Option<LinkView>, outcomes: Seq<OutcomeView>)
    requires
        link_pending(link).len() == 0,
    ensures
        link_settled(link, outcomes) == link,
        verdict(outcomes, link_pending(link).len()) == Ok::<(), Error>(()),
{
}

/// Among links that are all URLs, as many URLs stand before a link as
/// links do.
pub proof fn lemma_all_pending(links: Seq<LinkView>, n: nat)
    requires
        n <= links.len(),
        forall|i: int| 0 <= i < links.len() ==> (#[trigger] links[i]) is Url,
    ensures
        pending_count(links, n) == n,
    decreases n,
{
    if n > 0 {
        lemma_all_pending(links, (n - 1) as nat);
    }
}

/// Among outcomes that are all objects there is no failure.
pub proof fn lemma_no_failure(outcomes: Seq<OutcomeView>, n: nat)
    requires
        n <= outcomes.len(),
        forall|i: int| 0 <= i < outcomes.len() ==> (#[trigger] outcomes[i]) is Ok,
    ensures
        first_failure(outcomes, n) is None,
    decreases n,
{
    if n > 0 {
        lemma_no_failure(outcomes, (n - 1) as nat);
    }
}

/// Resolving a list of URLs with a fetched object for each of them yields
/// the list of those objects, in the order of the URLs, and succeeds.
pub proof fn lemma_all_fetched(urls: Seq<LinkView>, outcomes: Seq<OutcomeView>)
    requires
        forall|i: int| 0 <= i < urls.len() ==> (#[trigger] urls[i]) is Url,
        outcomes.len() == urls.len(),
        forall|i: int| 0 <= i < outcomes.len() ==> (#[trigger] outcomes[i]) is Ok,
    ensures
        links_settled(Multiplicity::Many(urls), outcomes) == Multiplicity::Many(
            Seq::new(urls.len(), |i: int| LinkView::Object(Box::new(outcomes[i]->Ok_0))),
        ),
        links_pending(links_settled(Multiplicity::Many(urls), outcomes)).len() == 0,
        verdict(outcomes, links_pending(Multiplicity::Many(urls)).len()) == Ok::<(), Error>(()),
{
    let settled = settle_list(urls, outcomes);
    let objects = Seq::new(urls.len(), |i: int| LinkView::Object(Box::new(outcomes[i]->Ok_0)));
    assert forall|i: int| 0 <= i < urls.len() implies settled[i] == objects[i] by {
        lemma_all_pending(urls, i as nat);
    }
    assert(settled =~= objects);
    lemma_pending_urls_len(urls, urls.len());
    lemma_all_pending(urls, urls.len());
    lemma_no_failure(outcomes, applied(outcomes, urls.len()));
    lemma_pending_urls_len(objects, objects.len());
    lemma_no_urls(objects, objects.len());
}

/// Among links that are all objects, none awaits a fetch.
pub proof fn lemma_no_urls(links: Seq<LinkView>, n: nat)
    requires
        n <= links.len(),
        forall|i: int| 0 <= i < links.len() ==> (#[trigger] links[i]) is Object,
    ensures
        pending_count(links, n) == 0,
    decreases n,
{
    if n > 0 {
        lemma_no_urls(links, (n - 1) as nat);
    }
}

/// With a single fetched object for outcome, the first URL among the links
/// is resolved and every other URL still awaits its fetch.
pub proof fn lemma_one_fetched_list(links: Seq<LinkView>, fetched: ObjectView, n: nat)
    requires
        n <= links.len(),
    ensures
        pending_urls(settle_list(links, seq![Ok::<ObjectView, FetchError>(fetched)]), n) == if pending_count(
            links,
            n,
        ) > 0 {
            pending_urls(links, n).skip(1)
        } else {
            pending_urls(links, n)
        },
    decreases n,
{
    let outcomes = seq![Ok::<ObjectView, FetchError>(fetched)];
    let settled = settle_list(links, outcomes);
    if n > 0 {
        lemma_one_fetched_list(links, fetched, (n - 1) as nat);
        lemma_pending_urls_len(links, (n - 1) as nat);
        let before = pending_urls(links, (n - 1) as nat);
        if links[n - 1] is Url {
            if pending_count(links, (n - 1) as nat) > 0 {
                assert(before.push(links[n - 1]->Url_0).skip(1) =~= before.skip(1).push(
                    links[n - 1]->Url_0,
                ));
            } else {
                assert(before.push(links[n - 1]->Url_0).skip(1) =~= before);
            }
        }
    }
}

/// With a single fetched object for outcome, the first URL among the links
/// is resolved and every other URL still awaits its fetch.
pub proof fn lemma_one_fetched_links(links: Multiplicity<LinkView>, fetched: ObjectView)
    requires
        links_pending(links).len() > 0,
    ensures
        links_pending(links_settled(links, seq![Ok::<ObjectView, FetchError>(fetched)])) == links_pending(
            links,
        ).skip(1),
{
    match links {
        Multiplicity::Absent => {},
        Multiplicity::One(one) => {
            reveal_with_fuel(pending_urls, 2);
            assert(links_pending(links).skip(1) =~= Seq::empty());
        },
        Multiplicity::Many(many) => {
            lemma_one_fetched_list(many, fetched, many.len());
            lemma_pending_urls_len(many, many.len());
        },
    }
}

/// With a single fetched object for outcome, an optional link that awaits a
/// fetch is resolved.
pub proof fn lemma_one_fetched_link(link: Option<LinkView>, fetched: ObjectView)
    requires
        link_pending(link).len() > 0,
    ensures
        link_pending(link_settled(link, seq![Ok::<ObjectView, FetchError>(fetched)])) == link_pending(
            link,
        ).skip(1),
{
    assert(link_pending(link).skip(1) =~= Seq::empty());
}

/// Whether every object among the outcomes is canonical.
pub open spec fn outcomes_wf(outcomes: Seq<OutcomeView>) -> bool {
    forall|i: int| 0 <= i < outcomes.len() ==> ((#[trigger] outcomes[i]) matches Ok(object) ==> object_wf(object))
}

/// A canonical list of links stays canonical when canonical objects take the
/// place of URLs.
pub proof fn lemma_settle_list_wf(links: Seq<LinkView>, outcomes: Seq<OutcomeView>)
    requires
        link_list_wf_upto(links, links.len()),
        outcomes_wf(outcomes),
    ensures
        link_list_wf_upto(settle_list(links, outcomes), links.len()),
{
    let settled = settle_list(links, outcomes);
    lemma_link_list_wf_upto(links, links.len());
    lemma_link_list_wf_upto(settled, settled.len());
    assert forall|i: int| 0 <= i < settled.len() implies link_wf(#[trigger] settled[i]) by {
        assert(link_wf(links[i]));
        let rank = pending_count(links, i as nat);
        if links[i] is Url && rank < outcomes.len() && outcomes[rank as int] is Ok {
            assert(object_wf(outcomes[rank as int]->Ok_0));
        }
    }
}

/// Canonical links stay canonical when canonical objects take the place of
/// URLs.
pub proof fn lemma_links_settled_wf(links: Multiplicity<LinkView>, outcomes: Seq<OutcomeView>)
    requires
        links_wf(links),
        outcomes_wf(outcomes),
    ensures
        links_wf(links_settled(links, outcomes)),
{
    match links {
        Multiplicity::Absent => {},
        Multiplicity::One(one) => {
            if one is Url && 0 < outcomes.len() && outcomes[0] is Ok {
                assert(object_wf(outcomes[0]->Ok_0));
            }
        },
        Multiplicity::Many(many) => {
            lemma_settle_list_wf(many, outcomes);
        },
    }
}

/// A canonical optional link stays canonical when a canonical object takes
/// the place of its URL.
pub proof fn lemma_link_settled_wf(link: Option<LinkView>, outcomes: Seq<OutcomeView>)
    requires
        link_option_wf(link),
        outcomes_wf(outcomes),
    ensures
        link_option_wf(link_settled(link, outcomes)),
{
    if let Some(held) = link {
        if held is Url && 0 < outcomes.len() && outcomes[0] is Ok {
            assert(object_wf(outcomes[0]->Ok_0));
        }
    }
}

} // verus!
