//! The capability that a zipper asks of what it wraps, and offers itself.

use vstd::prelude::*;

verus! {

/// A source of elements that is advanced one pull at a time.
///
/// The model of a producer is the succession that it is about to yield:
/// `upcoming(n)` is the element of the pull that follows `n` successful pulls.
/// The succession ends at the least `n` with `upcoming(n)` equal to `None`; a
/// producer that never ends has none. What `upcoming` says beyond that `n` has no
/// meaning, since nothing is promised of a producer once it has signalled its end.
pub trait Producer: Sized {
    /// What one pull yields.
    type Item;

    /// The element of the pull that follows `n` successful pulls, `None` where the
    /// succession has ended by then.
    spec fn upcoming(&self, n: nat) -> Option<Self::Item>;

    /// The producer as one pull leaves it, whether the pull yields an element or
    /// finds the succession ended.
    spec fn pulled(&self) -> Self;

    /// The count of elements that the producer reports as still to come at least.
    /// It is a hint: see `hint_is_sound` for a producer that keeps it.
    spec fn lower_bound(&self) -> nat;

    /// The count of elements that the producer reports as still to come at most,
    /// `None` where it reports no such count.
    spec fn upper_bound(&self) -> Option<nat>;

    /// Pulls one element. Yields the head of the succession and leaves the rest of
    /// it upcoming; yields `None` exactly where the succession has ended.
    fn next(&mut self) -> (r: Option<Self::Item>)
        ensures
            r == old(self).upcoming(0),
            *final(self) == old(self).pulled(),
            r is Some ==> forall|n: nat| #[trigger]
                final(self).upcoming(n) == old(self).upcoming(n + 1),
    ;

    /// Estimates how many elements are still to come: a lower bound and, where one
    /// is known, an upper bound. The producer is left as it is.
    fn size_hint(&self) -> (r: (usize, Option<usize>))
        ensures
            r.0 == self.lower_bound(),
            r.1 is Some <==> self.upper_bound() is Some,
            r.1 matches Some(u) ==> self.upper_bound() == Some(u as nat),
    ;
}

/// The succession of `p` has ended: its next pull yields nothing.
pub open spec fn ended<P: Producer>(p: P) -> bool {
    p.upcoming(0) is None
}

/// `p` as `n` pulls in a row leave it.
pub open spec fn pulled_times<P: Producer>(p: P, n: nat) -> P
    decreases n,
{
    if n == 0 {
        p
    } else {
        pulled_times(p, (n - 1) as nat).pulled()
    }
}

/// The succession of `p` ends after exactly `n` elements: a drain of `p` yields
/// `n` of them and then the signal that none remain.
pub open spec fn drains_in<P: Producer>(p: P, n: nat) -> bool {
    &&& p.upcoming(n) is None
    &&& forall|k: nat| k < n ==> (#[trigger] p.upcoming(k)) is Some
}

/// The succession of `p` ends at all.
pub open spec fn finite<P: Producer>(p: P) -> bool {
    exists|n: nat| (#[trigger] p.upcoming(n)) is None
}

/// The lower bound that `p` reports is one that it keeps: that many elements are
/// in fact still to come.
pub open spec fn hint_is_sound<P: Producer>(p: P) -> bool {
    forall|k: nat| k < p.lower_bound() ==> (#[trigger] p.upcoming(k)) is Some
}

/// The smaller of two counts.
pub open spec fn min2(a: nat, b: nat) -> nat {
    if a <= b { a } else { b }
}

/// A succession ends after one count of elements only.
pub proof fn lemma_drain_count_unique<P: Producer>(p: P, n: nat, m: nat)
    requires
        drains_in(p, n),
        drains_in(p, m),
    ensures
        n == m,
{
    if n < m {
        assert(p.upcoming(n) is Some);
    }
    if m < n {
        assert(p.upcoming(m) is Some);
    }
}

/// A sound lower bound never exceeds the count of elements that a drain yields.
pub proof fn lemma_sound_hint_within_drain<P: Producer>(p: P, n: nat)
    requires
        hint_is_sound(p),
        drains_in(p, n),
    ensures
        p.lower_bound() <= n,
{
    if n < p.lower_bound() {
        assert(p.upcoming(n) is Some);
    }
}

/// Pulls from `p` until it signals its end and returns what it yielded, in order.
/// The producer must be one that ends; it is left as one pull more than it had
/// elements leaves it.
pub fn drain<P: Producer>(p: &mut P) -> (v: Vec<P::Item>)
    requires
        finite(*old(p)),
    ensures
        drains_in(*old(p), v@.len()),
        forall|i: int| 0 <= i < v@.len() ==> old(p).upcoming(i as nat) == Some(#[trigger] v@[i]),
        *final(p) == pulled_times(*old(p), v@.len() + 1),
{
    let ghost start = *p;
    let ghost bound: nat = choose|n: nat| (#[trigger] start.upcoming(n)) is None;
    let mut v: Vec<P::Item> = Vec::new();
    loop
        invariant_except_break
            forall|k: nat| #[trigger] p.upcoming(k) == start.upcoming(k + v@.len()),
            *p == pulled_times(start, v@.len()),
        invariant
            start.upcoming(bound) is None,
            v@.len() <= bound,
            forall|i: int| 0 <= i < v@.len() ==> start.upcoming(i as nat) == Some(#[trigger] v@[i]),
        ensures
            start.upcoming(v@.len()) is None,
            *p == pulled_times(start, v@.len() + 1),
            forall|i: int| 0 <= i < v@.len() ==> start.upcoming(i as nat) == Some(#[trigger] v@[i]),
        decreases bound - v@.len(),
    {
        let ghost before = *p;
        assert(before.upcoming(0) == start.upcoming(0 + v@.len()));
        match p.next() {
            Some(x) => {
                proof {
                    assert forall|k: nat| #[trigger]
                        p.upcoming(k) == start.upcoming(k + v@.len() + 1) by {
                        assert(p.upcoming(k) == before.upcoming(k + 1));
                        assert(before.upcoming(k + 1) == start.upcoming((k + 1) + v@.len()));
                    }
                }
                v.push(x);
            },
            None => {
                break ;
            },
        }
    }
    proof {
        assert forall|k: nat| k < v@.len() implies (#[trigger] start.upcoming(k)) is Some by {
            assert(start.upcoming(k) == Some(v@[k as int]));
        }
    }
    v
}

} // verus!
