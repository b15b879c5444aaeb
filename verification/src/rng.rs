//! Trusted wrappers around rand's standard generator.
//!
//! The generator is modelled by the seed it was built from and by how many
//! words have been drawn from it; each drawn word is named as a function of
//! the seed and of its position in the stream, which is sound because the
//! standard generator's stream is fixed by its seed.

use vstd::prelude::*;

verus! {

#[verifier::external_type_specification]
#[verifier::external_body]
pub struct ExStdRng(rand::rngs::StdRng);

/// Seed the generator was built from.
pub uninterp spec fn rng_seed_of(r: rand::rngs::StdRng) -> u64;

/// How many words have been drawn from the generator so far.
pub uninterp spec fn rng_taken(r: rand::rngs::StdRng) -> int;

/// The word a seeded standard generator yields at the given position of its
/// stream.
pub uninterp spec fn std_rng_word(seed: u64, k: int) -> u64;

/// Relies on rand's SeedableRng::seed_from_u64 for StdRng: a fresh generator
/// whose stream is fixed by the seed.
#[verifier::external_body]
pub fn rng_from_seed(seed: u64) -> (r: rand::rngs::StdRng)
    ensures
        rng_seed_of(r) == seed,
        rng_taken(r) == 0,
{
    <rand::rngs::StdRng as rand::SeedableRng>::seed_from_u64(seed)
}

/// Relies on rand's SeedableRng::from_entropy for StdRng: a fresh generator
/// seeded from the process's entropy source; nothing is promised of its
/// seed. The model reads its draws as the stream of some unknown seed, which
/// holds within any one execution; no contract fixes which seed it is.
#[verifier::external_body]
pub fn rng_from_entropy() -> (r: rand::rngs::StdRng)
    ensures
        rng_taken(r) == 0,
{
    <rand::rngs::StdRng as rand::SeedableRng>::from_entropy()
}

/// Relies on rand's RngCore::next_u64 for StdRng: each drawn word is fixed by
/// the seed and by how many words were drawn before it.
#[verifier::external_body]
pub fn rng_next(r: &mut rand::rngs::StdRng) -> (w: u64)
    ensures
        rng_seed_of(*final(r)) == rng_seed_of(*old(r)),
        rng_taken(*final(r)) == rng_taken(*old(r)) + 1,
        w == std_rng_word(rng_seed_of(*old(r)), rng_taken(*old(r))),
{
    rand::RngCore::next_u64(r)
}

} // verus!
