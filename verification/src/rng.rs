//! Seedable randomness, behind trusted wrappers over the rand crate's
//! xorshift generator. The engine only ever consumes a uniform index and
//! raw 64-bit words; everything derived from them is verified code.

use vstd::prelude::*;

verus! {

#[verifier::external_type_specification]
#[verifier::external_body]
pub struct ExXorShiftRng(rand::XorShiftRng);

/// Relies on rand::XorShiftRng's SeedableRng::from_seed: builds the
/// generator state from four seed words; it panics only on an all-zero
/// seed, which the precondition excludes.
#[verifier::external_body]
pub fn rng_from_seed(s0: u32, s1: u32, s2: u32, s3: u32) -> (r: rand::XorShiftRng)
    requires
        s0 != 0 || s1 != 0 || s2 != 0 || s3 != 0,
{
    <rand::XorShiftRng as rand::SeedableRng<[u32; 4]>>::from_seed([s0, s1, s2, s3])
}

/// Relies on rand::Rng::gen_range: returns a value in `[0, n)`, uniform
/// over the range; it panics on an empty range, which the precondition
/// excludes.
#[verifier::external_body]
pub fn rng_index(rng: &mut rand::XorShiftRng, n: usize) -> (r: usize)
    requires
        n > 0,
    ensures
        r < n,
{
    rand::Rng::gen_range(rng, 0usize, n)
}

/// Relies on rand::Rng::next_u64: the generator's next 64 random bits;
/// nothing is promised of the value.
#[verifier::external_body]
pub fn rng_next_u64(rng: &mut rand::XorShiftRng) -> (r: u64) {
    rand::Rng::next_u64(rng)
}

} // verus!
