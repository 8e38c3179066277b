//! The zipper of three producers.

use vstd::prelude::*;
use crate::producer::{
    Producer, drains_in, ended, hint_is_sound, lemma_drain_count_unique,
    lemma_sound_hint_within_drain, min2,
};

verus! {

/// Three producers advanced in lockstep. Its elements are the triples of theirs.
pub struct Zip3<A, B, C>(pub A, pub B, pub C) where
    A: Producer,
    B: Producer,
    C: Producer;

impl<A, B, C> Zip3<A, B, C> where
    A: Producer,
    B: Producer,
    C: Producer,
{
    /// The position of the first producer whose succession has ended, counted from
    /// 0, or 3 where none has.
    pub open spec fn first_ended(&self) -> nat {
        if ended(self.0) {
            0
        } else if ended(self.1) {
            1
        } else if ended(self.2) {
            2
        } else {
            3
        }
    }
}

impl<A, B, C> Producer for Zip3<A, B, C> where
    A: Producer,
    B: Producer,
    C: Producer,
{
    type Item = (A::Item, B::Item, C::Item);

    /// A triple is upcoming where each producer has an element upcoming.
    open spec fn upcoming(&self, n: nat) -> Option<Self::Item> {
        match (
            self.0.upcoming(n),
            self.1.upcoming(n),
            self.2.upcoming(n),
        ) {
            (Some(a), Some(b), Some(c)) => Some((a, b, c)),
            _ => None,
        }
    }

    /// Each producer up to the first that has ended is pulled, in the order of their
    /// positions; the producers behind that one stay as they are.
    open spec fn pulled(&self) -> Self {
        Zip3(
            self.0.pulled(),
            if 1 <= self.first_ended() {
                self.1.pulled()
            } else {
                self.1
            },
            if 2 <= self.first_ended() {
                self.2.pulled()
            } else {
                self.2
            },
        )
    }

    /// The least of the producers' lower bounds.
    open spec fn lower_bound(&self) -> nat {
        min2(
            self.0.lower_bound(),
            min2(self.1.lower_bound(), self.2.lower_bound()),
        )
    }

    /// None. The zipper never reports an upper bound, not even where each of its
    /// producers reports one: the estimate is a hint for sizing, and the least of the
    /// producers' upper bounds, which would be a correct one, is left out on purpose.
    open spec fn upper_bound(&self) -> Option<nat> {
        None
    }

    /// Pulls from the producers in the order of their positions and stops at the
    /// first that has ended. A producer before that one has lost the element it
    /// yielded; a producer behind it is not pulled and stays as it was.
    fn next(&mut self) -> (r: Option<Self::Item>)
        ensures
            r is Some <==> old(self).first_ended() == 3,
            r matches Some(t) ==> {
                &&& old(self).0.upcoming(0) == Some(t.0)
                &&& old(self).1.upcoming(0) == Some(t.1)
                &&& old(self).2.upcoming(0) == Some(t.2)
            },
            final(self).0 == old(self).0.pulled(),
            1 <= old(self).first_ended() ==> final(self).1 == old(self).1.pulled(),
            2 <= old(self).first_ended() ==> final(self).2 == old(self).2.pulled(),
            old(self).first_ended() < 1 ==> final(self).1 == old(self).1,
            old(self).first_ended() < 2 ==> final(self).2 == old(self).2,
    {
        match self.0.next() {
            Some(a) => match self.1.next() {
                Some(b) => match self.2.next() {
                    Some(c) => Some((a, b, c)),
                    None => None,
                },
                None => None,
            },
            None => None,
        }
    }

    /// The least of the producers' lower bounds, and no upper bound, whatever the
    /// producers report as theirs.
    fn size_hint(&self) -> (r: (usize, Option<usize>))
        ensures
            r.0 == min2(
                self.0.lower_bound(),
                min2(self.1.lower_bound(), self.2.lower_bound()),
            ),
            r.1 is None,
    {
        let l0: usize = self.0.size_hint().0;
        let l1: usize = self.1.size_hint().0;
        let l2: usize = self.2.size_hint().0;
        (l0.min(l1.min(l2)), None)
    }
}

/// Where the producers end after `n0`, `n1` and `n2` elements,
/// the zipper ends after the least of these counts, and after no other.
pub proof fn lemma_zip3_length<A: Producer, B: Producer, C: Producer>(
    z: Zip3<A, B, C>,
    n0: nat,
    n1: nat,
    n2: nat,
)
    requires
        drains_in(z.0, n0),
        drains_in(z.1, n1),
        drains_in(z.2, n2),
    ensures
        drains_in(z, min2(n0, min2(n1, n2))),
        forall|n: nat| drains_in(z, n) ==> n == min2(n0, min2(n1, n2)),
{
    let m = min2(n0, min2(n1, n2));
    assert forall|k: nat| k < m implies (#[trigger] z.upcoming(k)) is Some by {
        assert(z.0.upcoming(k) is Some);
        assert(z.1.upcoming(k) is Some);
        assert(z.2.upcoming(k) is Some);
    }
    assert forall|n: nat| drains_in(z, n) implies n == m by {
        lemma_drain_count_unique(z, n, m);
    }
}

/// Every triple that the zipper has upcoming is made of what its producers have
/// upcoming at the same place, in the order of their positions, and it has one
/// upcoming wherever all of them have an element.
pub proof fn lemma_zip3_elements<A: Producer, B: Producer, C: Producer>(z: Zip3<A, B, C>, n: nat)
    ensures
        z.upcoming(n) matches Some(t) ==> {
            &&& z.0.upcoming(n) == Some(t.0)
            &&& z.1.upcoming(n) == Some(t.1)
            &&& z.2.upcoming(n) == Some(t.2)
        },
        z.upcoming(n) is Some <==> {
            &&& z.0.upcoming(n) is Some
            &&& z.1.upcoming(n) is Some
            &&& z.2.upcoming(n) is Some
        },
{
}

/// Where each producer keeps the lower bound that it reports, so does the zipper.
pub proof fn lemma_zip3_hint_sound<A: Producer, B: Producer, C: Producer>(z: Zip3<A, B, C>)
    requires
        hint_is_sound(z.0),
        hint_is_sound(z.1),
        hint_is_sound(z.2),
    ensures
        hint_is_sound(z),
{
    assert forall|k: nat| k < z.lower_bound() implies (#[trigger] z.upcoming(k)) is Some by {
        assert(z.0.upcoming(k) is Some);
        assert(z.1.upcoming(k) is Some);
        assert(z.2.upcoming(k) is Some);
    }
}

/// Where the zipper ends after `n` elements, the lower bound that it reports is at
/// most `n`, provided that each producer keeps the lower bound that it reports.
pub proof fn lemma_zip3_hint_within<A: Producer, B: Producer, C: Producer>(z: Zip3<A, B, C>, n: nat)
    requires
        hint_is_sound(z.0),
        hint_is_sound(z.1),
        hint_is_sound(z.2),
        drains_in(z, n),
    ensures
        z.lower_bound() <= n,
{
    lemma_zip3_hint_sound(z);
    lemma_sound_hint_within_drain(z, n);
}

} // verus!
