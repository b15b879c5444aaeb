//! The heightmap: a fixed-size grid of accumulated noise samples.
//!
//! Generation sums one base octave and a configured number of refinement
//! octaves into the grid. Per octave the frequency is quadrupled and the
//! contribution divided by six; only the base octave carries a constant
//! offset. Every octave is seeded independently from the caller's generator,
//! so the whole grid is a function of grid shape, octave count and seed.

use crate::noise::noise_bits;
use crate::noise::noise_freq_of;
use crate::noise::noise_sample;
use crate::noise::noise_seed_of;
use crate::noise::noise_seeded;
use crate::noise::noise_set_frequency;
use crate::noise::noise_set_seed;
use crate::rng::rng_from_entropy;
use crate::rng::rng_from_seed;
use crate::rng::rng_next;
use crate::rng::rng_seed_of;
use crate::rng::rng_taken;
use crate::rng::std_rng_word;
use crate::scalar::add_bits;
use crate::scalar::div_bits;
use crate::scalar::mul_bits;
use crate::scalar::scalar_add;
use crate::scalar::scalar_div;
use crate::scalar::scalar_from_usize;
use crate::scalar::scalar_mul;
use crate::scalar::usize_bits_of;
use crate::scalar::FOUR_BITS;
use crate::scalar::HALF_BITS;
use crate::scalar::ONE_BITS;
use crate::scalar::SIX_BITS;
use crate::scalar::TWO_BITS;
use crate::scalar::ZERO_BITS;
use vstd::arithmetic::div_mod::lemma_fundamental_div_mod;
use vstd::arithmetic::div_mod::lemma_fundamental_div_mod_converse;
use vstd::pervasive::VecAdditionalExecFns;
use vstd::prelude::*;

verus! {

/// The ways this library reports misuse or failure: a zero-sized grid at
/// construction, or a failing image encoder at rendering.
#[derive(Clone, Copy, Debug, PartialEq, Eq, Structural)]
pub enum FieldError {
    InvalidConfiguration,
    RenderFailed,
}

/// A 2D grid of accumulated noise samples, stored row-major, with a declared
/// output height range and a refinement octave count.
pub struct HeightField {
    pub(crate) width: usize,
    pub(crate) height: usize,
    pub(crate) min_bits: u32,
    pub(crate) max_bits: u32,
    pub(crate) roughness: usize,
    pub(crate) data: Vec<u32>,
}

/// One accumulation step: the previous cell value plus the scaled sample
/// plus the offset, all in single precision.
pub open spec fn layer_cell(prev: u32, seed: u64, freq: u32, scale: u32, offset: u32, x: int, y: int) -> u32 {
    add_bits(prev, add_bits(mul_bits(noise_bits(seed, freq, x, y), scale), offset))
}

/// Bit pattern of the mean of the two grid dimensions.
pub open spec fn avg_dim_bits(w: int, h: int) -> u32 {
    div_bits(add_bits(usize_bits_of(w), usize_bits_of(h)), TWO_BITS)
}

/// Frequency of octave k: the reciprocal of the mean dimension, quadrupled
/// once per further octave.
pub open spec fn freq_bits_at(w: int, h: int, k: nat) -> u32
    decreases k,
{
    if k == 0 {
        div_bits(ONE_BITS, avg_dim_bits(w, h))
    } else {
        mul_bits(freq_bits_at(w, h, (k - 1) as nat), FOUR_BITS)
    }
}

/// Scale of octave k: one, divided by six once per further octave.
pub open spec fn scale_bits_at(k: nat) -> u32
    decreases k,
{
    if k == 0 {
        ONE_BITS
    } else {
        div_bits(scale_bits_at((k - 1) as nat), SIX_BITS)
    }
}

/// Amplitude of the base octave: half of the initial scale, used both as its
/// scale and as its constant offset.
pub open spec fn base_amp_bits() -> u32 {
    mul_bits(HALF_BITS, scale_bits_at(0))
}

/// A cell's value after the base octave and k further octaves, octave j
/// seeded with the j-th word of the generator's stream from position t0.
pub open spec fn cell_bits_after(w: int, h: int, seed: u64, t0: int, k: nat, x: int, y: int) -> u32
    decreases k,
{
    if k == 0 {
        layer_cell(0u32, std_rng_word(seed, t0), freq_bits_at(w, h, 0), base_amp_bits(), base_amp_bits(), x, y)
    } else {
        layer_cell(
            cell_bits_after(w, h, seed, t0, (k - 1) as nat, x, y),
            std_rng_word(seed, t0 + k),
            freq_bits_at(w, h, k),
            scale_bits_at(k),
            ZERO_BITS,
            x,
            y,
        )
    }
}

/// The whole grid after generation with `rough` further octaves, row-major.
pub open spec fn generated_data(w: int, h: int, rough: nat, seed: u64, t0: int) -> Seq<u32> {
    Seq::new((w * h) as nat, |i: int| cell_bits_after(w, h, seed, t0, rough, i % w, i / w))
}

/// What iterating a field lists: each cell's coordinates and raw value, in
/// row-major order.
pub open spec fn iter_model(f: HeightField) -> Seq<((usize, usize), u32)> {
    Seq::new(
        f.spec_data().len(),
        |i: int|
            (
                (((i % f.spec_width()) as usize), ((i / f.spec_width()) as usize)),
                f.spec_data()[i],
            ),
    )
}

impl HeightField {
    /// Structural validity: positive dimensions, the pixel count fits the
    /// machine, and the grid is either still empty or fully populated.
    pub open(crate) spec fn wf(self) -> bool {
        &&& 1 <= self.width
        &&& 1 <= self.height
        &&& 3 * (self.width as int) * (self.height as int) <= usize::MAX as int
        &&& (self.data@.len() == 0 || self.data@.len() == (self.width as int) * (self.height as int))
    }

    pub open(crate) spec fn spec_width(self) -> int {
        self.width as int
    }

    pub open(crate) spec fn spec_height(self) -> int {
        self.height as int
    }

    pub open(crate) spec fn spec_min_bits(self) -> u32 {
        self.min_bits
    }

    pub open(crate) spec fn spec_max_bits(self) -> u32 {
        self.max_bits
    }

    pub open(crate) spec fn spec_roughness(self) -> nat {
        self.roughness as nat
    }

    pub open(crate) spec fn spec_data(self) -> Seq<u32> {
        self.data@
    }

    /// Whether `generate` has run: the grid is empty until then.
    pub open spec fn is_generated(self) -> bool {
        self.spec_data().len() != 0
    }

    /// Builds an empty field. Fails exactly on a zero-sized grid.
    pub fn new(size_x: usize, size_y: usize, min_z_bits: u32, max_z_bits: u32, roughness: usize) -> (r: Result<
        HeightField,
        FieldError,
    >)
        requires
            3 * (size_x as int) * (size_y as int) <= usize::MAX as int,
        ensures
            r is Ok <==> (1 <= size_x && 1 <= size_y),
            r is Ok ==> {
                &&& r->Ok_0.wf()
                &&& r->Ok_0.spec_width() == size_x
                &&& r->Ok_0.spec_height() == size_y
                &&& r->Ok_0.spec_min_bits() == min_z_bits
                &&& r->Ok_0.spec_max_bits() == max_z_bits
                &&& r->Ok_0.spec_roughness() == roughness
                &&& !r->Ok_0.is_generated()
            },
            r is Err ==> r->Err_0 == FieldError::InvalidConfiguration,
    {
        if size_x == 0 || size_y == 0 {
            Err(FieldError::InvalidConfiguration)
        } else {
            Ok(
                HeightField {
                    width: size_x,
                    height: size_y,
                    min_bits: min_z_bits,
                    max_bits: max_z_bits,
                    roughness,
                    data: Vec::new(),
                },
            )
        }
    }

    /// The grid dimensions, width then height.
    pub fn size(&self) -> (r: (usize, usize))
        ensures
            r.0 == self.spec_width(),
            r.1 == self.spec_height(),
    {
        (self.width, self.height)
    }

    /// Runs the full multi-octave synthesis, drawing one seed per octave from
    /// the given generator and replacing the grid in one assignment.
    pub fn generate(&mut self, rng: &mut rand::rngs::StdRng)
        requires
            old(self).wf(),
        ensures
            final(self).wf(),
            final(self).spec_width() == old(self).spec_width(),
            final(self).spec_height() == old(self).spec_height(),
            final(self).spec_min_bits() == old(self).spec_min_bits(),
            final(self).spec_max_bits() == old(self).spec_max_bits(),
            final(self).spec_roughness() == old(self).spec_roughness(),
            final(self).is_generated(),
            rng_seed_of(*final(rng)) == rng_seed_of(*old(rng)),
            rng_taken(*final(rng)) == rng_taken(*old(rng)) + old(self).spec_roughness() + 1,
            final(self).spec_data() == generated_data(
                old(self).spec_width(),
                old(self).spec_height(),
                old(self).spec_roughness(),
                rng_seed_of(*old(rng)),
                rng_taken(*old(rng)),
            ),
    {
        let w = self.width;
        let h = self.height;
        let ghost seed = rng_seed_of(*rng);
        let ghost t0 = rng_taken(*rng);
        proof {
            assert((w as int) * (h as int) <= usize::MAX as int && 1 <= (w as int) * (h as int))
                by (nonlinear_arith)
                requires
                    3 * (w as int) * (h as int) <= usize::MAX as int,
                    1 <= w,
                    1 <= h,
            ;
        }
        let n = w * h;
        let mut data: Vec<u32> = Vec::new();
        let mut i: usize = 0;
        while i < n
            invariant
                i <= n,
                data@.len() == i,
                forall|j: int| 0 <= j < i ==> data@[j] == 0u32,
            decreases n - i,
        {
            data.push(0u32);
            i += 1;
        }
        let wb = scalar_from_usize(w);
        let hb = scalar_from_usize(h);
        let avg = scalar_div(scalar_add(wb, hb), TWO_BITS);
        let mut freq = scalar_div(ONE_BITS, avg);
        let mut scale = ONE_BITS;

        let seed0 = rng_next(rng);
        let mut noise = noise_seeded(seed0);
        noise_set_frequency(&mut noise, freq);
        let amp = scalar_mul(HALF_BITS, scale);
        generate_layer(&noise, (w, h), amp, amp, &mut data);
        proof {
            assert forall|j: int| 0 <= j < n implies data@[j] == cell_bits_after(
                w as int,
                h as int,
                seed,
                t0,
                0,
                j % (w as int),
                j / (w as int),
            ) by {}
            assert(data@ =~= generated_data(w as int, h as int, 0, seed, t0));
        }
        let mut k: usize = 0;
        while k < self.roughness
            invariant
                k <= self.roughness,
                self.width == w,
                self.height == h,
                1 <= w,
                1 <= h,
                (w as int) * (h as int) == n,
                n <= usize::MAX,
                data@.len() == n,
                freq == freq_bits_at(w as int, h as int, k as nat),
                scale == scale_bits_at(k as nat),
                rng_seed_of(*rng) == seed,
                rng_taken(*rng) == t0 + k + 1,
                noise_seed_of(noise) == std_rng_word(seed, t0 + k),
                noise_freq_of(noise) == freq_bits_at(w as int, h as int, k as nat),
                data@ == generated_data(w as int, h as int, k as nat, seed, t0),
            decreases self.roughness - k,
        {
            freq = scalar_mul(freq, FOUR_BITS);
            scale = scalar_div(scale, SIX_BITS);
            let sk = rng_next(rng);
            noise_set_seed(&mut noise, sk);
            noise_set_frequency(&mut noise, freq);
            let ghost before = data@;
            generate_layer(&noise, (w, h), scale, ZERO_BITS, &mut data);
            proof {
                assert forall|j: int| 0 <= j < n implies data@[j] == cell_bits_after(
                    w as int,
                    h as int,
                    seed,
                    t0,
                    (k + 1) as nat,
                    j % (w as int),
                    j / (w as int),
                ) by {
                    assert(before[j] == cell_bits_after(w as int, h as int, seed, t0, k as nat, j % (w as int), j / (w as int)));
                }
                assert(data@ =~= generated_data(w as int, h as int, (k + 1) as nat, seed, t0));
            }
            k += 1;
        }
        self.data = data;
    }

    /// Seeded or unseeded generation: a given seed starts a reproducible
    /// stream; with none, the stream is seeded from process entropy.
    pub fn generate_seeded(&mut self, seed: Option<u64>)
        requires
            old(self).wf(),
        ensures
            final(self).wf(),
            final(self).spec_width() == old(self).spec_width(),
            final(self).spec_height() == old(self).spec_height(),
            final(self).spec_min_bits() == old(self).spec_min_bits(),
            final(self).spec_max_bits() == old(self).spec_max_bits(),
            final(self).spec_roughness() == old(self).spec_roughness(),
            final(self).is_generated(),
            seed matches Some(s) ==> final(self).spec_data() == generated_data(
                old(self).spec_width(),
                old(self).spec_height(),
                old(self).spec_roughness(),
                s,
                0,
            ),
            seed is None ==> exists|s: u64|
                final(self).spec_data() == generated_data(
                    old(self).spec_width(),
                    old(self).spec_height(),
                    old(self).spec_roughness(),
                    s,
                    0,
                ),
    {
        match seed {
            Some(s) => {
                let mut rng = rng_from_seed(s);
                self.generate(&mut rng);
            },
            None => {
                let mut rng = rng_from_entropy();
                self.generate(&mut rng);
            },
        }
    }

    /// A row-major listing of the grid: entry i carries the coordinates
    /// (i mod width, i div width) and the cell's raw value. Empty until the
    /// field is generated.
    pub fn iter(&self) -> (r: Vec<((usize, usize), u32)>)
        requires
            self.wf(),
        ensures
            r@ == iter_model(*self),
            r@.len() == self.spec_data().len(),
            forall|i: int|
                0 <= i < r@.len() ==> r@[i] == (
                    (
                        ((i % self.spec_width()) as usize),
                        ((i / self.spec_width()) as usize),
                    ),
                    self.spec_data()[i],
                ),
    {
        let w = self.width;
        let n = self.data.len();
        let mut r: Vec<((usize, usize), u32)> = Vec::new();
        let mut i: usize = 0;
        while i < n
            invariant
                i <= n,
                n == self.spec_data().len(),
                w == self.spec_width(),
                1 <= w,
                r@.len() == i,
                forall|j: int|
                    0 <= j < i ==> r@[j] == (
                        (((j % (w as int)) as usize), ((j / (w as int)) as usize)),
                        self.spec_data()[j],
                    ),
            decreases n - i,
        {
            let x = i % w;
            let y = i / w;
            r.push(((x, y), self.data[i]));
            i += 1;
        }
        proof {
            assert(r@ =~= iter_model(*self));
        }
        r
    }
}

/// Adds one octave's contribution into every cell of the grid, row-major:
/// cell (x, y) gains the evaluator's sample there, scaled and offset.
fn generate_layer(
    noise: &bracket_noise::prelude::FastNoise,
    size: (usize, usize),
    scale: u32,
    offset: u32,
    output: &mut Vec<u32>,
)
    requires
        1 <= size.0,
        old(output)@.len() == (size.0 as int) * (size.1 as int),
        (size.0 as int) * (size.1 as int) <= usize::MAX as int,
    ensures
        final(output)@.len() == old(output)@.len(),
        forall|i: int|
            0 <= i < old(output)@.len() ==> final(output)@[i] == layer_cell(
                old(output)@[i],
                noise_seed_of(*noise),
                noise_freq_of(*noise),
                scale,
                offset,
                i % (size.0 as int),
                i / (size.0 as int),
            ),
{
    let w = size.0;
    let h = size.1;
    let mut y: usize = 0;
    while y < h
        invariant
            y <= h,
            1 <= w,
            output@.len() == (w as int) * (h as int),
            (w as int) * (h as int) <= usize::MAX as int,
            forall|i: int|
                0 <= i < (y as int) * (w as int) ==> output@[i] == layer_cell(
                    old(output)@[i],
                    noise_seed_of(*noise),
                    noise_freq_of(*noise),
                    scale,
                    offset,
                    i % (w as int),
                    i / (w as int),
                ),
            forall|i: int|
                (y as int) * (w as int) <= i < output@.len() ==> output@[i] == old(output)@[i],
        decreases h - y,
    {
        proof {
            assert((y as int) * (w as int) + (w as int) <= (w as int) * (h as int))
                by (nonlinear_arith)
                requires
                    0 <= y < h,
                    1 <= w,
            ;
        }
        let mut x: usize = 0;
        while x < w
            invariant
                x <= w,
                y < h,
                1 <= w,
                output@.len() == (w as int) * (h as int),
                (w as int) * (h as int) <= usize::MAX as int,
                (y as int) * (w as int) + x <= output@.len(),
                forall|i: int|
                    0 <= i < (y as int) * (w as int) + x ==> output@[i] == layer_cell(
                        old(output)@[i],
                        noise_seed_of(*noise),
                        noise_freq_of(*noise),
                        scale,
                        offset,
                        i % (w as int),
                        i / (w as int),
                    ),
                forall|i: int|
                    (y as int) * (w as int) + x <= i < output@.len() ==> output@[i] == old(output)@[i],
            decreases w - x,
        {
            proof {
                assert((y as int) * (w as int) + (x as int) < (w as int) * (h as int)) by (nonlinear_arith)
                    requires
                        0 <= x < w,
                        0 <= y < h,
                ;
                lemma_fundamental_div_mod_converse(
                    (y as int) * (w as int) + (x as int),
                    w as int,
                    y as int,
                    x as int,
                );
            }
            let idx = y * w + x;
            let s = noise_sample(noise, x, y);
            let t = scalar_add(scalar_mul(s, scale), offset);
            let prev = output[idx];
            output.set(idx, scalar_add(prev, t));
            x += 1;
        }
        proof {
            assert(((y as int) + 1) * (w as int) == (y as int) * (w as int) + (w as int))
                by (nonlinear_arith);
        }
        y += 1;
    }
}

/// Shape invariant of iteration, first half: a generated field lists exactly
/// width times height entries, and the cell (x, y) appears at position
/// x + y*width of the listing, which carries exactly those coordinates.
pub proof fn lemma_iteration_shape(f: HeightField, x: int, y: int)
    requires
        f.wf(),
        f.is_generated(),
        0 <= x < f.spec_width(),
        0 <= y < f.spec_height(),
    ensures
        f.spec_data().len() == f.spec_width() * f.spec_height(),
        0 <= x + y * f.spec_width() < f.spec_data().len(),
        (x + y * f.spec_width()) % f.spec_width() == x,
        (x + y * f.spec_width()) / f.spec_width() == y,
{
    let w = f.spec_width();
    let h = f.spec_height();
    assert(x + y * w < w * h) by (nonlinear_arith)
        requires
            0 <= x < w,
            0 <= y < h,
    ;
    lemma_fundamental_div_mod_converse(x + y * w, w, y, x);
}

/// Shape invariant of iteration, second half: no two positions of the
/// listing carry the same coordinates, so each cell appears exactly once.
pub proof fn lemma_iteration_coords_unique(f: HeightField, i: int, j: int)
    requires
        f.wf(),
        0 <= i < f.spec_data().len(),
        0 <= j < f.spec_data().len(),
        i != j,
    ensures
        !(i % f.spec_width() == j % f.spec_width() && i / f.spec_width() == j / f.spec_width()),
{
    let w = f.spec_width();
    lemma_fundamental_div_mod(i, w);
    lemma_fundamental_div_mod(j, w);
}

/// Determinism of generation: two fields of one shape and octave count,
/// generated from one seed, hold identical data, and iterating them lists
/// identical sequences.
pub proof fn lemma_generation_deterministic(a: HeightField, b: HeightField, seed: u64)
    requires
        a.spec_width() == b.spec_width(),
        a.spec_height() == b.spec_height(),
        a.spec_roughness() == b.spec_roughness(),
        a.spec_data() == generated_data(
            a.spec_width(),
            a.spec_height(),
            a.spec_roughness(),
            seed,
            0,
        ),
        b.spec_data() == generated_data(
            b.spec_width(),
            b.spec_height(),
            b.spec_roughness(),
            seed,
            0,
        ),
    ensures
        a.spec_data() == b.spec_data(),
        iter_model(a) == iter_model(b),
{
    assert(iter_model(a) =~= iter_model(b));
}

/// Denominator of octave k's ideal contribution: the base octave contributes
/// one half, and each further octave's ideal contribution is a sixth of the
/// previous one, so the denominators are two, then six to the k-th power.
/// This mirrors, in exact arithmetic, the division by six that
/// `scale_bits_at` performs per octave in single precision.
pub open spec fn octave_amplitude_den(k: nat) -> nat
    decreases k,
{
    if k == 0 {
        2
    } else if k == 1 {
        6
    } else {
        6 * octave_amplitude_den((k - 1) as nat)
    }
}

proof fn lemma_octave_amplitude_den_positive(k: nat)
    ensures
        2 <= octave_amplitude_den(k),
    decreases k,
{
    if k >= 2 {
        lemma_octave_amplitude_den_positive((k - 1) as nat);
    }
}

/// Monotonic decay of the octave schedule: the ideal contribution of each
/// further octave is strictly smaller than the previous one — its numerator
/// stays one while its denominator strictly grows.
pub proof fn lemma_octave_amplitude_decays(k: nat)
    ensures
        octave_amplitude_den(k) < octave_amplitude_den(k + 1),
{
    lemma_octave_amplitude_den_positive(k);
    if k >= 1 {
        assert(octave_amplitude_den(k + 1) == 6 * octave_amplitude_den(k));
    }
}

} // verus!
