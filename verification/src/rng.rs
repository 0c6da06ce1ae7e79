//! The one source of randomness the simulation draws on.

use vstd::prelude::*;

verus! {

/// Relies on rand::random_range over `0..n`: a draw from the thread-local
/// generator, uniform over the half-open range. It panics on an empty range,
/// so `n` must be positive. Nothing is promised of a random value beyond its
/// range: every caller must be correct for every value below `n`.
#[verifier::external_body]
pub(crate) fn random_below(n: u32) -> (r: u32)
    requires
        1 <= n,
    ensures
        r < n,
{
    rand::random_range(0..n)
}

} // verus!
