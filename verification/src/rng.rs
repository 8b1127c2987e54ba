//! The pseudo-random source for serve headings.
//!
//! The generator is threaded through construction and reset calls
//! explicitly, so a fixed seed replays the same match.  The generator type
//! and the two calls into it are the only trusted items of the crate.

use vstd::prelude::*;

verus! {

#[verifier::external_type_specification]
#[verifier::external_body]
pub struct ExStdRng(rand::rngs::StdRng);

/// Relies on rand's `SeedableRng::seed_from_u64`: builds a deterministic
/// generator from a 64-bit seed.
#[verifier::external_body]
pub(crate) fn rng_from_seed(seed: u64) -> (rng: rand::rngs::StdRng) {
    <rand::rngs::StdRng as rand::SeedableRng>::seed_from_u64(seed)
}

/// Relies on rand's `RngExt::random_range`, which returns a value within
/// the given range; the range here is nonempty, so the call cannot panic.
/// Which value comes back depends on the generator's state, so nothing more
/// is promised.
#[verifier::external_body]
pub(crate) fn random_degree(rng: &mut rand::rngs::StdRng) -> (d: u32)
    ensures
        d < 360,
{
    rand::RngExt::random_range(rng, 0u32..360u32)
}

} // verus!
