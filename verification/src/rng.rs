//! The library's one source of entropy: a uniformly random index drawn
//! from a thread-local random number generator.

use vstd::prelude::*;

verus! {

/// Relies on rand's `RngExt::random_range` over the half-open range `0..n`:
/// with a non-empty range it returns a uniformly distributed value inside
/// it (and panics only on an empty range, which the precondition rules
/// out). The result is random, so nothing beyond its bound is promised.
#[verifier::external_body]
pub(crate) fn random_index_below(n: usize) -> (r: usize)
    requires
        0 < n,
    ensures
        r < n,
{
    rand::RngExt::random_range(&mut rand::rng(), 0..n)
}

} // verus!
