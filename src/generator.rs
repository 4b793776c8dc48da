//! The ChaCha12 generator step, behind a trusted wrapper.

use rand_chacha::rand_core::SeedableRng;
use rand_core::RngCore;
use vstd::prelude::*;

verus! {

/// The first 64-bit word of the ChaCha12 stream whose generator was seeded
/// from `seed`.
pub uninterp spec fn chacha12_first_word(seed: u64) -> u64;

/// Relies on `rand_chacha::ChaCha12Rng`: seeded by `SeedableRng::seed_from_u64`,
/// which expands the seed deterministically, its first `RngCore::next_u64`
/// output is a function of the seed alone.
#[verifier::external_body]
pub(crate) fn chacha12_next(seed: u64) -> (r: u64)
    ensures
        r == chacha12_first_word(seed),
{
    let mut rng = rand_chacha::ChaCha12Rng::seed_from_u64(seed);
    rng.next_u64()
}

} // verus!
