//! A container for a property that holds zero, one or many values.

use vstd::prelude::*;

verus! {

/// The mathematical value of a [`NonFunctional`]: nothing, one value, or a
/// sequence of values.
pub ghost enum Multiplicity<V> {
    Absent,
    One(V),
    Many(Seq<V>),
}

impl<V> Multiplicity<V> {
    /// The values held, in order.
    pub open spec fn elements(self) -> Seq<V> {
        match self {
            Multiplicity::Absent => Seq::empty(),
            Multiplicity::One(one) => seq![one],
            Multiplicity::Many(many) => many,
        }
    }

    /// Whether the value is in normal form: a list is never the way to hold
    /// nothing.
    pub open spec fn is_normal(self) -> bool {
        self matches Multiplicity::Many(many) ==> many.len() > 0
    }
}

/// A property that holds zero, one or many values.
#[derive(Debug, PartialEq, Eq)]
pub enum NonFunctional<T> {
    Absent,
    One(T),
    Many(Vec<T>),
}

impl<T> NonFunctional<T> {
    /// The values held, in order.
    pub open spec fn elements(&self) -> Seq<T> {
        match self {
            NonFunctional::Absent => Seq::empty(),
            NonFunctional::One(one) => seq![*one],
            NonFunctional::Many(many) => many@,
        }
    }

    /// Whether two containers are in the same of the three states.
    pub open spec fn same_state(&self, other: Self) -> bool {
        &&& self is Absent <==> other is Absent
        &&& self is One <==> other is One
        &&& self is Many <==> other is Many
    }

    /// Whether the container is in normal form: a list is never the way to
    /// hold nothing.
    pub open spec fn is_normal(&self) -> bool {
        self matches NonFunctional::Many(many) ==> many@.len() > 0
    }

    /// Whether the container is in normal form.
    pub fn is_normalized(&self) -> (r: bool)
        ensures
            r == self.is_normal(),
    {
        match self {
            NonFunctional::Many(many) => many.len() > 0,
            _ => true,
        }
    }

    /// Whether nothing is held. An empty list holds nothing, as `Absent`
    /// does.
    pub fn is_none(&self) -> (r: bool)
        ensures
            r == (self.elements().len() == 0),
    {
        match self {
            NonFunctional::Absent => true,
            NonFunctional::One(_) => false,
            NonFunctional::Many(many) => many.len() == 0,
        }
    }

    /// The container that holds the given values, in order: `Absent` where
    /// there are none.
    pub fn from_vec(values: Vec<T>) -> (r: NonFunctional<T>)
        ensures
            r.elements() == values@,
            r.is_normal(),
            values@.len() > 0 ==> r == NonFunctional::Many(values),
    {
        if values.len() == 0 {
            assert(values@ =~= Seq::empty());
            NonFunctional::Absent
        } else {
            NonFunctional::Many(values)
        }
    }

    /// Brings the container into normal form: an empty list becomes
    /// `Absent`; anything else stays as it is.
    pub fn normalize(&mut self)
        ensures
            final(self).is_normal(),
            final(self).elements() == old(self).elements(),
            old(self).is_normal() ==> *final(self) == *old(self),
    {
        let empty = match self {
            NonFunctional::Many(many) => many.len() == 0,
            _ => false,
        };
        if empty {
            assert(self.elements() =~= Seq::empty());
            *self = NonFunctional::Absent;
        }
    }

    /// A traversal of the values held, in order, from the first.
    pub fn iter(&self) -> (r: NonFunctionalIter<'_, T>)
        ensures
            r.non_functional == self,
            r.index == 0,
    {
        NonFunctionalIter { non_functional: self, index: 0 }
    }

    /// A traversal of the values held, in order, from the first, that hands
    /// out each value to be changed in place. While it lives, nothing else
    /// can reach the container.
    pub fn iter_mut(&mut self) -> (r: NonFunctionalIterMut<'_, T>)
        ensures
            *r.non_functional == *old(self),
            r.index == 0,
            *final(self) == *final(r.non_functional),
    {
        NonFunctionalIterMut { non_functional: self, index: 0 }
    }
}

impl<T> Default for NonFunctional<T> {
    /// The container that holds nothing.
    fn default() -> (r: NonFunctional<T>)
        ensures
            r is Absent,
    {
        NonFunctional::Absent
    }
}

/// A traversal of a [`NonFunctional`]: the container, and the place of the
/// value that comes next.
pub struct NonFunctionalIter<'a, T> {
    pub non_functional: &'a NonFunctional<T>,
    pub index: usize,
}

impl<'a, T> NonFunctionalIter<'a, T> {
    /// The value that comes next, or `None` once every value has been
    /// handed out.
    pub fn next(&mut self) -> (r: Option<&'a T>)
        ensures
            final(self).non_functional == old(self).non_functional,
            match r {
                Some(item) => old(self).index < old(self).non_functional.elements().len()
                    && *item == old(self).non_functional.elements()[old(self).index as int]
                    && final(self).index == old(self).index + 1,
                None => old(self).index >= old(self).non_functional.elements().len()
                    && final(self).index == old(self).index,
            },
    {
        match self.non_functional {
            NonFunctional::One(one) => {
                if self.index == 0 {
                    self.index = 1;
                    Some(one)
                } else {
                    None
                }
            },
            NonFunctional::Many(many) => {
                if self.index < many.len() {
                    let item = &many[self.index];
                    self.index = self.index + 1;
                    Some(item)
                } else {
                    None
                }
            },
            NonFunctional::Absent => None,
        }
    }
}

/// A traversal of a [`NonFunctional`] that hands out each value to be
/// changed in place: the container, and the place of the value that comes
/// next.
pub struct NonFunctionalIterMut<'a, T> {
    pub non_functional: &'a mut NonFunctional<T>,
    pub index: usize,
}

impl<'a, T> NonFunctionalIterMut<'a, T> {
    /// The value that comes next, to be changed in place, or `None` once
    /// every value has been handed out. What the caller writes into the
    /// value is what the container then holds at that place; the state of
    /// the container and every other value stay as they are.
    pub fn next(&mut self) -> (r: Option<&mut T>)
        ensures
            *final(final(self).non_functional) == *final(old(self).non_functional),
            match r {
                Some(item) => {
                    &&& old(self).index < old(self).non_functional.elements().len()
                    &&& *item == old(self).non_functional.elements()[old(self).index as int]
                    &&& final(self).index == old(self).index + 1
                    &&& final(self).non_functional.same_state(*old(self).non_functional)
                    &&& final(self).non_functional.elements() == old(self).non_functional.elements().update(
                        old(self).index as int,
                        *final(item),
                    )
                },
                None => {
                    &&& old(self).index >= old(self).non_functional.elements().len()
                    &&& final(self).index == old(self).index
                    &&& *final(self).non_functional == *old(self).non_functional
                },
            },
    {
        match self.non_functional {
            NonFunctional::One(one) => {
                if self.index == 0 {
                    self.index = 1;
                    Some(one)
                } else {
                    None
                }
            },
            NonFunctional::Many(many) => {
                if self.index < many.len() {
                    let i = self.index;
                    self.index = self.index + 1;
                    Some(&mut many[i])
                } else {
                    None
                }
            },
            NonFunctional::Absent => None,
        }
    }
}

} // verus!
