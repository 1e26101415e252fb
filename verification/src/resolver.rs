//! Resolving a whole object, step by step: which URL is to be fetched next,
//! and where the fetched object goes.

use crate::error::Error;
use crate::error::FetchError;
use crate::object::lemma_take_frame;
use crate::object::object_view;
use crate::object::same_at;
use crate::object::Object;
use crate::object::ObjectView;
use crate::property::Property;
use crate::property::PROPERTY_COUNT;
use crate::resolve::outcomes_view;
use crate::resolve::urls_view;
use crate::resolve::Outcome;
use crate::targets::lemma_one_fetched;
use crate::targets::lemma_settled_takes;
use crate::targets::pending_at;
use crate::targets::settled_at;
use crate::url::Url;
use vstd::prelude::*;

verus! {

/// The first of the first `n` properties whose links are resolved with the
/// whole object and of which one still awaits a fetch.
pub open spec fn first_target(object: ObjectView, n: nat) -> Option<Property>
    decreases n,
{
    if n == 0 || n > PROPERTY_COUNT {
        None
    } else {
        match first_target(object, (n - 1) as nat) {
            Some(property) => Some(property),
            None => {
                let property = Property::at_spec((n - 1) as nat);
                if property.auto_resolved_spec() && pending_at(object, property).len() > 0 {
                    Some(property)
                } else {
                    None
                }
            },
        }
    }
}

/// The property whose link is to be fetched next, if any is.
pub open spec fn next_target(object: ObjectView) -> Option<Property> {
    first_target(object, PROPERTY_COUNT as nat)
}

/// The URL to fetch next in resolving an object: the first URL of the first
/// property that awaits one.
pub open spec fn next_url(object: ObjectView) -> Option<Seq<char>> {
    match next_target(object) {
        Some(property) => Some(pending_at(object, property)[0]),
        None => None,
    }
}

/// An object with the link to be fetched next replaced by the object that
/// was fetched.
pub open spec fn placed(object: ObjectView, fetched: ObjectView) -> ObjectView {
    match next_target(object) {
        Some(property) => settled_at(object, property, seq![Ok::<ObjectView, FetchError>(fetched)]),
        None => object,
    }
}

/// The objects under resolution once every object on top that awaits
/// nothing more has been placed into the object below it.
pub open spec fn settled_frames(frames: Seq<ObjectView>) -> Seq<ObjectView>
    decreases frames.len(),
{
    if frames.len() <= 1 || next_target(frames.last()) is Some {
        frames
    } else {
        let below = frames[frames.len() - 2];
        settled_frames(frames.take(frames.len() - 2).push(placed(below, frames.last())))
    }
}

/// A property that `first_target` finds is resolved with the whole object
/// and awaits a fetch; where it finds none, no such property is among the
/// first `n`.
pub proof fn lemma_first_target(object: ObjectView, n: nat)
    requires
        n <= PROPERTY_COUNT,
    ensures
        match first_target(object, n) {
            Some(property) => property.auto_resolved_spec() && pending_at(object, property).len() > 0
                && property.index_spec() < n,
            None => forall|property: Property|
                property.index_spec() < n && #[trigger] property.auto_resolved_spec() ==> pending_at(
                    object,
                    property,
                ).len() == 0,
        },
    decreases n,
{
    Property::lemma_places();
    if n > 0 {
        lemma_first_target(object, (n - 1) as nat);
        if first_target(object, n) is None {
            assert forall|property: Property|
                property.index_spec() < n && #[trigger] property.auto_resolved_spec() implies pending_at(
                object,
                property,
            ).len() == 0 by {
                if property.index_spec() == n - 1 {
                    assert(Property::at_spec((n - 1) as nat) == property);
                }
            }
        }
    }
}

/// Placing a fetched object resolves the URL that was to be fetched next,
/// and nothing else: every other URL of that property still awaits its fetch,
/// and every other property and the residual entries stay as they are.
pub proof fn lemma_placed(object: ObjectView, fetched: ObjectView, property: Property)
    requires
        next_target(object) is Some,
    ensures
        pending_at(placed(object, fetched), next_target(object)->0) == pending_at(
            object,
            next_target(object)->0,
        ).skip(1),
        property != next_target(object)->0 ==> same_at(placed(object, fetched), object, property),
        placed(object, fetched).rest == object.rest,
{
    let target = next_target(object)->0;
    let outcomes = seq![Ok::<ObjectView, FetchError>(fetched)];
    lemma_first_target(object, PROPERTY_COUNT as nat);
    lemma_one_fetched(object, target, fetched);
    lemma_settled_takes(object, target, outcomes);
    if property != target {
        lemma_take_frame(object, target, settled_at(object, target, outcomes), property);
    } else if target == Property::Type {
        lemma_take_frame(object, target, settled_at(object, target, outcomes), Property::Id);
    } else {
        lemma_take_frame(object, target, settled_at(object, target, outcomes), Property::Type);
    }
}

/// What the application is to do next.
#[derive(Debug, PartialEq, Eq)]
pub enum Action {
    /// Fetch the object at this URL and deliver the outcome.
    Fetch(Url),
    /// Nothing awaits a fetch: take the resolved object.
    Finish,
}

/// The resolution of a whole object in progress: the object itself and, on
/// top of it, each fetched object whose own links are being resolved before
/// it takes its place in the object below.
pub struct Resolver {
    frames: Vec<Object>,
}

/// The values of a list of objects.
pub open spec fn frames_view(frames: Seq<Object>) -> Seq<ObjectView> {
    frames.map_values(|object: Object| object_view(object))
}

impl View for Resolver {
    type V = Seq<ObjectView>;

    closed spec fn view(&self) -> Seq<ObjectView> {
        frames_view(self.frames@)
    }
}

impl Object {
    /// The property whose link is to be fetched next in resolving the whole
    /// object: the first, in the order of the properties, that is resolved
    /// with the whole object and holds a URL.
    pub fn next_target(&self) -> (r: Option<Property>)
        ensures
            r == next_target(self@),
    {
        let mut i: usize = 0;
        while i < PROPERTY_COUNT
            invariant
                i <= PROPERTY_COUNT,
                first_target(self@, i as nat) is None,
            decreases PROPERTY_COUNT - i,
        {
            let property = Property::at(i);
            if property.auto_resolved() {
                let urls = self.pending(property);
                if urls.len() > 0 {
                    proof {
                        lemma_first_found(self@, (i + 1) as nat, PROPERTY_COUNT as nat);
                    }
                    return Some(property);
                }
            }
            i = i + 1;
        }
        None
    }

    /// Begins the resolution of every link of this object that is resolved
    /// with the whole object, and of every such link of each object fetched
    /// on the way.
    pub fn resolve(self) -> (r: Resolver)
        ensures
            r@ == seq![self@],
    {
        let mut frames: Vec<Object> = Vec::new();
        frames.push(self);
        assert(frames_view(frames@) =~= seq![self@]);
        Resolver { frames }
    }
}

/// A property found among the first `n` is the one found among any more.
pub proof fn lemma_first_found(object: ObjectView, n: nat, m: nat)
    requires
        n <= m <= PROPERTY_COUNT,
        first_target(object, n) is Some,
    ensures
        first_target(object, m) == first_target(object, n),
    decreases m,
{
    if n < m {
        lemma_first_found(object, n, (m - 1) as nat);
    }
}

/// Takes the object on top and puts it in the place of the URL that the
/// object below awaits.
fn place_top(frames: &mut Vec<Object>)
    requires
        old(frames)@.len() >= 2,
    ensures
        final(frames)@.len() == old(frames)@.len() - 1,
        forall|i: int| 0 <= i < old(frames)@.len() - 2 ==> final(frames)@[i] == old(frames)@[i],
        frames_view(final(frames)@) == frames_view(old(frames)@).take(old(frames)@.len() - 2).push(
            placed(
                object_view(old(frames)@[old(frames)@.len() - 2]),
                object_view(old(frames)@.last()),
            ),
        ),
{
    let ghost views = frames_view(frames@);
    let depth = frames.len();
    let fetched = match frames.pop() {
        Some(fetched) => fetched,
        None => {
            return ;
        },
    };
    let ghost popped = frames@;
    let target = frames[depth - 2].next_target();
    match target {
        Some(property) => {
            let mut outcomes: Vec<Outcome> = Vec::new();
            outcomes.push(Ok(fetched));
            proof {
                assert(outcomes_view(outcomes@) =~= seq![
                    Ok::<ObjectView, FetchError>(views.last()),
                ]);
            }
            let _ = frames[depth - 2].resolve_property(property, outcomes);
        },
        None => {},
    }
    proof {
        assert(frames@ =~= popped.update(depth - 2, frames@[depth - 2]));
        assert(frames_view(frames@) =~= views.take(depth - 2).push(
            placed(views[depth - 2], views.last()),
        ));
    }
}

impl Resolver {
    /// There is always an object under resolution, and every object but the
    /// one on top awaits the object above it.
    #[verifier::type_invariant]
    spec fn well_formed(&self) -> bool {
        &&& self.frames@.len() > 0
        &&& forall|i: int|
            0 <= i < self.frames@.len() - 1 ==> next_target(object_view(#[trigger] self.frames@[i])) is Some
    }

    /// Says what to do next. Every fetched object on top that awaits nothing
    /// more first takes the place of the URL it was fetched from. Then, if
    /// the object on top holds a URL to resolve, that URL is to be fetched;
    /// if not, only the resolved object is left and the resolution is done.
    pub fn action(self) -> (r: (Resolver, Action))
        ensures
            r.0@ == settled_frames(self@),
            r.0@.len() > 0,
            match next_url(r.0@.last()) {
                Some(url) => r.1 matches Action::Fetch(fetch) && fetch@ == url,
                None => r.1 is Finish && r.0@.len() == 1,
            },
    {
        proof {
            use_type_invariant(&self);
        }
        let mut frames = self.frames;
        loop
            invariant
                frames@.len() > 0,
                forall|i: int|
                    0 <= i < frames@.len() - 1 ==> next_target(object_view(#[trigger] frames@[i])) is Some,
                settled_frames(frames_view(frames@)) == settled_frames(self@),
            decreases frames@.len(),
        {
            let depth = frames.len();
            let ghost views = frames_view(frames@);
            match frames[depth - 1].next_target() {
                Some(property) => {
                    let urls = frames[depth - 1].pending(property);
                    proof {
                        lemma_first_target(views.last(), PROPERTY_COUNT as nat);
                        assert(urls_view(urls@).len() == urls@.len());
                        assert(urls_view(urls@)[0] == urls@[0]@);
                    }
                    let fetch = urls[0].clone();
                    return (Resolver { frames }, Action::Fetch(fetch));
                },
                None => {
                    if depth == 1 {
                        return (Resolver { frames }, Action::Finish);
                    }
                    place_top(&mut frames);
                },
            }
        }
    }

    /// Takes the outcome of the fetch that `action` asked for. A fetched
    /// object goes on top, so that its own links are resolved before it
    /// takes the place of the URL; where nothing awaited a fetch it is
    /// dropped. A failure ends the whole resolution with its error.
    pub fn deliver(self, outcome: Outcome) -> (r: Result<Resolver, Error>)
        ensures
            match outcome {
                Ok(fetched) => r matches Ok(next) && next@ == if next_target(self@.last()) is Some {
                    self@.push(fetched@)
                } else {
                    self@
                },
                Err(error) => r matches Err(found) && found == Error::Fetch(error),
            },
    {
        proof {
            use_type_invariant(&self);
        }
        let mut frames = self.frames;
        match outcome {
            Ok(fetched) => {
                let depth = frames.len();
                if frames[depth - 1].next_target().is_some() {
                    let ghost views = frames_view(frames@);
                    frames.push(fetched);
                    assert(frames_view(frames@) =~= views.push(fetched@));
                }
                Ok(Resolver { frames })
            },
            Err(error) => Err(Error::Fetch(error)),
        }
    }

    /// The resolved object, once `action` has said `Finish`. While a URL
    /// still awaits a fetch, or a fetched object its place, the resolution
    /// has not produced an object and the result is an error.
    pub fn finish(self) -> (r: Result<Object, Error>)
        ensures
            match r {
                Ok(object) => self@ == seq![object@] && next_target(object@) is None,
                Err(error) => error == Error::NotResolved && !(self@.len() == 1 && next_target(
                    self@[0],
                ) is None),
            },
    {
        proof {
            use_type_invariant(&self);
        }
        let mut frames = self.frames;
        if frames.len() == 1 && frames[0].next_target().is_none() {
            match frames.pop() {
                Some(object) => {
                    assert(self@ =~= seq![object@]);
                    Ok(object)
                },
                None => Err(Error::NotResolved),
            }
        } else {
            Err(Error::NotResolved)
        }
    }
}

} // verus!
