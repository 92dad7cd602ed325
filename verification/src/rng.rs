//! Trusted boundary to the `rand` crate.
//!
//! Every random draw the library makes goes through one of the wrappers
//! below; the rest of the crate is verified against their contracts.  Nothing
//! is assumed about which value comes back, only about its range (or, for a
//! shuffle, that the contents are preserved).

use vstd::prelude::*;

verus! {

#[verifier::external_type_specification]
#[verifier::external_body]
pub struct ExSmallRng(rand::rngs::SmallRng);

/// Relies on rand's `SeedableRng::seed_from_u64` for `SmallRng`: builds a
/// deterministic generator from a 64-bit seed.  The generator is opaque to
/// the library; no contract is stated about its state.
#[verifier::external_body]
pub(crate) fn rng_from_seed(seed: u64) -> rand::rngs::SmallRng {
    <rand::rngs::SmallRng as rand::SeedableRng>::seed_from_u64(seed)
}

/// Relies on `rand::random::<u64>` to draw a fresh seed from the process-wide
/// generator.  The value depends on the process, so nothing is stated of it.
/// The thread-local generator's first use aborts if the operating system's
/// entropy source fails; like allocation failure, that is an environment
/// fault with no input to exclude.
#[verifier::external_body]
pub(crate) fn fresh_seed() -> u64 {
    rand::random::<u64>()
}

/// Relies on rand's `Rng::random_range` over `0..bound`: the sample always
/// lies in the (non-empty) requested range.  `random_range` panics on an
/// empty range, hence the precondition.
#[verifier::external_body]
pub(crate) fn rand_below(rng: &mut rand::rngs::SmallRng, bound: usize) -> (r: usize)
    requires
        bound > 0,
    ensures
        r < bound,
{
    rand::Rng::random_range(rng, 0..bound)
}

/// Relies on rand's `SliceRandom::shuffle`: the slice is permuted in place
/// (a Fisher-Yates shuffle), so exactly the old elements remain, in some
/// order that is not specified.
#[verifier::external_body]
pub(crate) fn shuffle_indices(rng: &mut rand::rngs::SmallRng, v: &mut Vec<usize>)
    ensures
        final(v)@.len() == old(v)@.len(),
        final(v)@.to_multiset() == old(v)@.to_multiset(),
{
    rand::seq::SliceRandom::shuffle(v.as_mut_slice(), rng)
}

} // verus!
