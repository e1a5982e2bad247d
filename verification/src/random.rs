//! Draws from `rand`'s seeded xorshift generator.

use vstd::prelude::*;

verus! {

#[verifier::external_type_specification]
#[verifier::external_body]
pub struct ExXorShiftRng(rand::prng::XorShiftRng);

/// Calls `rand`'s `XorShiftRng::seed_from_u64(seed)`. Nothing is stated of the
/// generator's state.
#[verifier::external_body]
pub(crate) fn seeded_rng(seed: u64) -> rand::prng::XorShiftRng {
    rand::SeedableRng::seed_from_u64(seed)
}

/// Calls `rand`'s `Rng::gen_range(0, len)` on the generator: an index below
/// `len` (the call panics when `len` is zero). Which index comes out is not stated.
#[verifier::external_body]
pub(crate) fn gen_index(rng: &mut rand::prng::XorShiftRng, len: usize) -> (r: usize)
    requires
        len > 0,
    ensures
        r < len,
{
    rand::Rng::gen_range(rng, 0, len)
}

} // verus!
