//! Trusted wrappers around bracket_noise's evaluator.
//!
//! The evaluator is modelled by its seed and by the bit pattern of its
//! frequency; with its other settings left at their defaults, the sample at a
//! grid cell is a function of seed, frequency and the cell's coordinates, and
//! is named as such.

use byteorder::ReadBytesExt;
use vstd::prelude::*;

verus! {

#[verifier::external_type_specification]
#[verifier::external_body]
pub struct ExFastNoise(bracket_noise::prelude::FastNoise);

/// Seed the evaluator is configured with.
pub uninterp spec fn noise_seed_of(n: bracket_noise::prelude::FastNoise) -> u64;

/// Bit pattern of the frequency the evaluator is configured with.
pub uninterp spec fn noise_freq_of(n: bracket_noise::prelude::FastNoise) -> u32;

/// Bit pattern of the sample a default-configured evaluator yields at the
/// given cell, by seed, frequency pattern and coordinates.
pub uninterp spec fn noise_bits(seed: u64, freq: u32, x: int, y: int) -> u32;

/// Relies on FastNoise::seeded: a fresh evaluator with the given seed, its
/// frequency zero and every other setting at its default.
#[verifier::external_body]
pub(crate) fn noise_seeded(seed: u64) -> (n: bracket_noise::prelude::FastNoise)
    ensures
        noise_seed_of(n) == seed,
        noise_freq_of(n) == 0u32,
{
    bracket_noise::prelude::FastNoise::seeded(seed)
}

/// Relies on FastNoise::set_seed: it replaces the seed and the tables drawn
/// from it, and leaves the frequency unchanged.
#[verifier::external_body]
pub(crate) fn noise_set_seed(n: &mut bracket_noise::prelude::FastNoise, seed: u64)
    ensures
        noise_seed_of(*final(n)) == seed,
        noise_freq_of(*final(n)) == noise_freq_of(*old(n)),
{
    n.set_seed(seed)
}

/// Relies on FastNoise::set_frequency: it stores the value whose bit pattern
/// is given, and leaves the seed unchanged.
#[verifier::external_body]
pub(crate) fn noise_set_frequency(n: &mut bracket_noise::prelude::FastNoise, freq: u32)
    ensures
        noise_seed_of(*final(n)) == noise_seed_of(*old(n)),
        noise_freq_of(*final(n)) == freq,
{
    let f = std::io::Cursor::new(freq.to_le_bytes()).read_f32::<byteorder::LittleEndian>().unwrap();
    n.set_frequency(f)
}

/// Relies on FastNoise::get_noise: with default settings the sample is a
/// pure function of seed, frequency and the cell's coordinates.
#[verifier::external_body]
pub(crate) fn noise_sample(n: &bracket_noise::prelude::FastNoise, x: usize, y: usize) -> (r: u32)
    ensures
        r == noise_bits(noise_seed_of(*n), noise_freq_of(*n), x as int, y as int),
{
    n.get_noise(x as _, y as _).to_bits()
}

} // verus!
