//! Plain producers to zip: the items of a slice, a run of numbers, one value
//! without end, and a producer that counts how often it is pulled.

use vstd::prelude::*;
use crate::producer::{Producer, drains_in, hint_is_sound};

verus! {

/// The items of a slice, yielded by reference from position `pos` on.
pub struct Items<'a, T> {
    /// The slice.
    pub items: &'a [T],
    /// The position of the item that the next pull yields.
    pub pos: usize,
}

impl<'a, T> Items<'a, T> {
    /// A producer of all the items of a slice, from the front.
    pub fn new(items: &'a [T]) -> (r: Self)
        ensures
            r.items == items,
            r.pos == 0,
    {
        Items { items, pos: 0 }
    }

    /// The count of items that are still to come.
    pub open spec fn remaining(&self) -> nat {
        if self.pos <= self.items@.len() {
            (self.items@.len() - self.pos) as nat
        } else {
            0
        }
    }
}

impl<'a, T> Producer for Items<'a, T> {
    type Item = &'a T;

    /// The item `n` positions behind the current one, while the slice lasts.
    open spec fn upcoming(&self, n: nat) -> Option<&'a T> {
        if self.pos + n < self.items@.len() {
            Some(&self.items@[self.pos + n])
        } else {
            None
        }
    }

    /// One position on, or as it is at the end of the slice.
    open spec fn pulled(&self) -> Self {
        if self.pos < self.items@.len() {
            Items { items: self.items, pos: (self.pos + 1) as usize }
        } else {
            *self
        }
    }

    /// The count of items that are still to come.
    open spec fn lower_bound(&self) -> nat {
        self.remaining()
    }

    /// The count of items that are still to come.
    open spec fn upper_bound(&self) -> Option<nat> {
        Some(self.remaining())
    }

    /// Yields the item at the current position and moves one on; at the end of the
    /// slice yields nothing and stays.
    fn next(&mut self) -> (r: Option<&'a T>) {
        let items: &'a [T] = self.items;
        if self.pos < items.len() {
            let x: &'a T = &items[self.pos];
            self.pos = self.pos + 1;
            Some(x)
        } else {
            None
        }
    }

    /// The count of items that are still to come, as both bounds.
    fn size_hint(&self) -> (r: (usize, Option<usize>))
        ensures
            r.0 == self.remaining(),
            r.1 == Some(r.0),
    {
        let left: usize = if self.pos <= self.items.len() {
            self.items.len() - self.pos
        } else {
            0
        };
        (left, Some(left))
    }
}

/// The numbers from `from` up to, not including, `until`, in rising order.
pub struct Span {
    /// The number that the next pull yields, if it is below `until`.
    pub from: usize,
    /// The end of the run.
    pub until: usize,
}

impl Span {
    /// A producer of the numbers from `from` up to, not including, `until`.
    pub fn new(from: usize, until: usize) -> (r: Self)
        ensures
            r.from == from,
            r.until == until,
    {
        Span { from, until }
    }

    /// The count of numbers that are still to come.
    pub open spec fn remaining(&self) -> nat {
        if self.from <= self.until {
            (self.until - self.from) as nat
        } else {
            0
        }
    }
}

impl Producer for Span {
    type Item = usize;

    /// The number `n` above `from`, while it is below `until`.
    open spec fn upcoming(&self, n: nat) -> Option<usize> {
        if self.from + n < self.until {
            Some((self.from + n) as usize)
        } else {
            None
        }
    }

    /// With `from` one higher, or as it is at the end of the run.
    open spec fn pulled(&self) -> Self {
        if self.from < self.until {
            Span { from: (self.from + 1) as usize, until: self.until }
        } else {
            *self
        }
    }

    /// The count of numbers that are still to come.
    open spec fn lower_bound(&self) -> nat {
        self.remaining()
    }

    /// The count of numbers that are still to come.
    open spec fn upper_bound(&self) -> Option<nat> {
        Some(self.remaining())
    }

    /// Yields `from` and raises it by one; at the end of the run yields nothing
    /// and stays.
    fn next(&mut self) -> (r: Option<usize>) {
        if self.from < self.until {
            let x: usize = self.from;
            self.from = self.from + 1;
            Some(x)
        } else {
            None
        }
    }

    /// The count of numbers that are still to come, as both bounds.
    fn size_hint(&self) -> (r: (usize, Option<usize>))
        ensures
            r.0 == self.remaining(),
            r.1 == Some(r.0),
    {
        let left: usize = if self.from <= self.until {
            self.until - self.from
        } else {
            0
        };
        (left, Some(left))
    }
}

/// One value, yielded again at every pull, without end.
pub struct Repeat<T: Copy>(pub T);

impl<T: Copy> Producer for Repeat<T> {
    type Item = T;

    /// The value, however far ahead.
    open spec fn upcoming(&self, n: nat) -> Option<T> {
        Some(self.0)
    }

    /// As it is.
    open spec fn pulled(&self) -> Self {
        *self
    }

    /// The greatest count that can be reported.
    open spec fn lower_bound(&self) -> nat {
        usize::MAX as nat
    }

    /// None: there is no end.
    open spec fn upper_bound(&self) -> Option<nat> {
        None
    }

    /// Yields the value and stays as it is.
    fn next(&mut self) -> (r: Option<T>) {
        Some(self.0)
    }

    /// The greatest count that can be reported, and no upper bound.
    fn size_hint(&self) -> (r: (usize, Option<usize>))
        ensures
            r.0 == usize::MAX,
            r.1 is None,
    {
        (usize::MAX, None)
    }
}

/// A producer together with the count of the pulls made on it, those that found it
/// ended included. It yields what the producer yields.
pub struct Tally<P: Producer> {
    /// The producer that is pulled.
    pub inner: P,
    /// The count of pulls so far; it stays at the greatest count once there.
    pub pulls: usize,
}

impl<P: Producer> Tally<P> {
    /// Wraps a producer, with no pull counted yet.
    pub fn new(inner: P) -> (r: Self)
        ensures
            r.inner == inner,
            r.pulls == 0,
    {
        Tally { inner, pulls: 0 }
    }
}

impl<P: Producer> Producer for Tally<P> {
    type Item = P::Item;

    /// What the wrapped producer has upcoming.
    open spec fn upcoming(&self, n: nat) -> Option<P::Item> {
        self.inner.upcoming(n)
    }

    /// The wrapped producer pulled, and one pull more counted.
    open spec fn pulled(&self) -> Self {
        Tally {
            inner: self.inner.pulled(),
            pulls: if self.pulls < usize::MAX {
                (self.pulls + 1) as usize
            } else {
                self.pulls
            },
        }
    }

    /// The lower bound of the wrapped producer.
    open spec fn lower_bound(&self) -> nat {
        self.inner.lower_bound()
    }

    /// The upper bound of the wrapped producer.
    open spec fn upper_bound(&self) -> Option<nat> {
        self.inner.upper_bound()
    }

    /// Pulls from the wrapped producer, once, and counts the pull.
    fn next(&mut self) -> (r: Option<P::Item>) {
        if self.pulls < usize::MAX {
            self.pulls = self.pulls + 1;
        }
        self.inner.next()
    }

    /// The estimate of the wrapped producer.
    fn size_hint(&self) -> (r: (usize, Option<usize>)) {
        self.inner.size_hint()
    }
}

/// The items of a slice end after the count that is reported as to come, so the
/// lower bound is kept.
pub proof fn lemma_items_count<'a, T>(p: Items<'a, T>)
    ensures
        drains_in(p, p.remaining()),
        hint_is_sound(p),
{
}

/// A run of numbers ends after the count that is reported as to come, so the
/// lower bound is kept.
pub proof fn lemma_span_count(p: Span)
    ensures
        drains_in(p, p.remaining()),
        hint_is_sound(p),
{
}

/// A counted producer has upcoming what the producer it wraps has: it ends where
/// that one ends, and keeps the lower bound where that one keeps its own.
pub proof fn lemma_tally_transparent<P: Producer>(p: Tally<P>, n: nat)
    ensures
        p.upcoming(n) == p.inner.upcoming(n),
        drains_in(p, n) <==> drains_in(p.inner, n),
        hint_is_sound(p) <==> hint_is_sound(p.inner),
{
    if drains_in(p, n) {
        assert forall|k: nat| k < n implies (#[trigger] p.inner.upcoming(k)) is Some by {
            assert(p.upcoming(k) is Some);
        }
    }
    if hint_is_sound(p) {
        assert forall|k: nat| k < p.inner.lower_bound() implies (#[trigger] p.inner.upcoming(
            k,
        )) is Some by {
            assert(p.upcoming(k) is Some);
        }
    }
}

/// A repeated value never ends, so any lower bound is kept.
pub proof fn lemma_repeat_endless<T: Copy>(p: Repeat<T>, n: nat)
    ensures
        !drains_in(p, n),
        hint_is_sound(p),
{
}

} // verus!
