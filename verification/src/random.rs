//! The random numbers the system draws, from the thread-local generator of `rand`.
use rand::Rng;
use vstd::prelude::*;

verus! {

/// Draws a uniformly random index below `n` with
/// `rand::thread_rng().gen_range(0..n)`; `gen_range` panics on an empty range,
/// hence `n > 0`. The contract claims only that the index is in range.
#[verifier::external_body]
pub(crate) fn random_below(n: usize) -> (r: usize)
    requires
        n > 0,
    ensures
        r < n,
{
    rand::thread_rng().gen_range(0..n)
}

/// Draws a random `u32` with `rand::thread_rng().gen::<u32>()`. Any value can
/// come back, so the contract states nothing of it.
#[verifier::external_body]
pub(crate) fn random_u32() -> (r: u32) {
    rand::thread_rng().gen::<u32>()
}

} // verus!
