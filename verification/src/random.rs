//! Trusted boundary to the `rand` crate.
//!
//! Spawning picks a spawn point and a visual variant at random, and enemy
//! steering flips a fresh coin every tick.  Nothing can be promised of a
//! random value beyond its range, so each wrapper states only what holds of
//! every outcome, and the verified callers take the drawn value as given.

use vstd::prelude::*;
use rand::Rng;
use rand::prelude::IndexedRandom;
use crate::vehicle::Position;

verus! {

/// Relies on rand's `Rng::random_range` over `0..n`: it panics only on an
/// empty range, and the drawn value lies strictly below the upper bound.
#[verifier::external_body]
pub(crate) fn random_index(n: usize) -> (r: usize)
    requires
        1 <= n,
    ensures
        r < n,
{
    rand::rng().random_range(0..n)
}

/// Relies on rand's `IndexedRandom::choose`: it returns `None` exactly on an
/// empty slice, and otherwise some element of the slice.
#[verifier::external_body]
pub(crate) fn choose_position(points: &Vec<Position>) -> (r: Option<Position>)
    ensures
        r is Some <==> points@.len() > 0,
        r is Some ==> exists|i: int| 0 <= i < points@.len() && points@[i] == r->Some_0,
{
    points.as_slice().choose(&mut rand::rng()).copied()
}

} // verus!
