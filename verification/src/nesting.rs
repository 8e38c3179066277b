//! Zippers inside zippers.

use vstd::prelude::*;
use crate::producer::{Producer, drains_in};
use crate::zip2::Zip2;
use crate::zip3::Zip3;

verus! {

/// A zipper of two that wraps a zipper of two in its first place yields what a
/// zipper of three yields of the same producers, at every place and to the same
/// end, but for the shape: a pair whose first part is a pair, where the zipper of
/// three has a flat triple.
pub proof fn lemma_nested_matches_flat<A: Producer, B: Producer, C: Producer>(
    a: A,
    b: B,
    c: C,
    n: nat,
)
    ensures
        match (Zip2(Zip2(a, b), c).upcoming(n), Zip3(a, b, c).upcoming(n)) {
            (Some(((x, y), z)), Some(t)) => t == (x, y, z),
            (None, None) => true,
            _ => false,
        },
        drains_in(Zip2(Zip2(a, b), c), n) <==> drains_in(Zip3(a, b, c), n),
{
    let nested = Zip2(Zip2(a, b), c);
    let flat = Zip3(a, b, c);
    if drains_in(nested, n) {
        assert forall|k: nat| k < n implies (#[trigger] flat.upcoming(k)) is Some by {
            assert(nested.upcoming(k) is Some);
        }
    }
    if drains_in(flat, n) {
        assert forall|k: nat| k < n implies (#[trigger] nested.upcoming(k)) is Some by {
            assert(flat.upcoming(k) is Some);
        }
    }
}

} // verus!
