//! The random source and the decisions on what it draws.
//!
//! Every function that needs chance takes a `Sampler`, a handle on one
//! seeded stream. A render gives each chunk a stream of its own, seeded from
//! the global seed and the chunk's index, so that what a chunk draws depends
//! on no other chunk.

use vstd::prelude::*;
use vstd::arithmetic::power2::lemma_pow2_adds;
use vstd::arithmetic::power2::lemma_pow2_pos;
use vstd::arithmetic::power2::lemma_pow2_strictly_increases;
use vstd::arithmetic::power2::lemma_pow2_unfold;
use vstd::arithmetic::power2::lemma2_to64;
use vstd::arithmetic::power2::pow2;
use crate::scalar::FRACTION_SPAN;
use crate::scalar::ONE_BITS;
use crate::scalar::Scalar;
use crate::scalar::units;
use crate::vector::Vector;

verus! {

/// `rand::rngs::SmallRng`, a small fast generator. Its state is carried,
/// never looked into.
#[verifier::external_type_specification]
#[verifier::external_body]
pub struct ExSmallRng(rand::rngs::SmallRng);

/// One seeded stream of random draws.
pub struct Sampler {
    rng: rand::rngs::SmallRng,
}

/// Number of words that give the same sample: a sample keeps the upper 24
/// bits of a word.
pub const WORDS_PER_SAMPLE: u32 = 256;

/// Makes a generator by `rand::SeedableRng::seed_from_u64`, as
/// `rand::rngs::SmallRng` implements it. Nothing is claimed of the
/// generator.
#[verifier::external_body]
fn seeded_generator(seed: u64) -> (rng: rand::rngs::SmallRng) {
    rand::SeedableRng::seed_from_u64(seed)
}

/// Draws the next 32 bits of the stream by `rand::RngCore::next_u32`, as
/// `rand::rngs::SmallRng` implements it. Nothing is claimed of the word.
#[verifier::external_body]
fn next_word(rng: &mut rand::rngs::SmallRng) -> (word: u32) {
    rand::RngCore::next_u32(rng)
}

/// Whether a candidate vector of the given squared length is kept when
/// sampling the unit ball by rejection: it is, unless the squared length
/// exceeds one.
pub open spec fn in_unit_ball(length_squared: Scalar) -> bool {
    !length_squared.greater(Scalar { bits: ONE_BITS })
}

/// Whether a scalar is a sample of the unit interval: a number from zero up
/// to, but not including, one.
pub open spec fn unit_sample(sample: Scalar) -> bool {
    sample.bits < ONE_BITS
}

/// Seed of the random stream of one chunk: the global seed plus the chunk's
/// index, wrapping round at the width of a seed.
pub open spec fn seed_of(global: u64, chunk: int) -> int {
    (global + chunk) % 0x1_0000_0000_0000_0000
}

/// Different chunks of one render draw from differently seeded streams,
/// whatever the global seed, so no chunk's samples depend on which chunks
/// were rendered before it.
pub proof fn lemma_seeds_differ(global: u64, a: usize, b: usize)
    requires
        a != b,
    ensures
        seed_of(global, a as int) != seed_of(global, b as int),
{
}

/// A sample of the unit interval is a number that is at least zero and less
/// than one.
pub proof fn lemma_unit_sample_range(sample: Scalar)
    requires
        unit_sample(sample),
    ensures
        !sample.nan(),
        !sample.less(Scalar { bits: 0 }),
        sample.less(Scalar { bits: ONE_BITS }),
{
}

/// The seed of the random stream of the chunk at `chunk`.
pub fn chunk_seed(global: u64, chunk: usize) -> (seed: u64)
    ensures
        seed == seed_of(global, chunk as int),
{
    let offset: u64 = chunk as u64;
    if offset <= u64::MAX - global {
        global + offset
    } else {
        offset - (u64::MAX - global) - 1
    }
}

/// Decides whether rejection sampling keeps a candidate.
pub fn accepts_candidate(length_squared: Scalar) -> (r: bool)
    ensures
        r == in_unit_ball(length_squared),
{
    !length_squared.gt(Scalar::from_bits(ONE_BITS))
}

/// Checks that a draw lies in the unit interval.
pub fn is_unit_sample(sample: Scalar) -> (r: bool)
    ensures
        r == unit_sample(sample),
{
    sample.to_bits() < ONE_BITS
}

/// The uniform sample that a random word stands for: the word's upper 24
/// bits, as a count of steps of two to the power of minus 24. Two to the
/// power of 24 samples are possible, evenly spaced from zero up to the last
/// step below one, and each is an exact scalar.
pub fn unit_sample_from(word: u32) -> (sample: Scalar)
    ensures
        unit_sample(sample),
        sample.value() == (word / WORDS_PER_SAMPLE) * pow2(125),
{
    let steps: u32 = word / WORDS_PER_SAMPLE;
    if steps == 0 {
        return Scalar::from_bits(0);
    }
    let mut significand: u32 = steps;
    let mut exponent: u32 = 126;
    let ghost mut doublings: nat = 0;
    proof {
        lemma2_to64();
    }
    while significand < FRACTION_SPAN
        invariant
            1 <= steps < 0x100_0000,
            significand == steps * pow2(doublings),
            significand < 0x100_0000,
            exponent == 126 - doublings,
            doublings <= 23,
            pow2(23) == 0x80_0000,
        decreases 23 - doublings,
    {
        proof {
            lemma_pow2_pos(doublings);
            assert(pow2(doublings) <= steps * pow2(doublings)) by (nonlinear_arith)
                requires
                    1 <= steps,
                    0 < pow2(doublings),
            ;
            if doublings >= 23 {
                if doublings > 23 {
                    lemma_pow2_strictly_increases(23, doublings);
                }
                assert(false);
            }
            lemma_pow2_unfold(doublings + 1);
            assert(steps * (2 * pow2(doublings)) == 2 * (steps * pow2(doublings)))
                by (nonlinear_arith);
        }
        significand = significand * 2;
        exponent = exponent - 1;
        proof {
            doublings = doublings + 1;
        }
    }
    let bits: u32 = exponent * FRACTION_SPAN + (significand - FRACTION_SPAN);
    proof {
        let span = FRACTION_SPAN as int;
        let fraction = significand - span;
        assert(0 <= fraction < span);
        assert(103 <= exponent <= 126);
        vstd::arithmetic::div_mod::lemma_fundamental_div_mod_converse(
            bits as int,
            span,
            exponent as int,
            fraction,
        );
        assert(units(bits as int) == significand * pow2((exponent - 1) as nat));
        lemma_pow2_adds(doublings, (125 - doublings) as nat);
        assert(significand * pow2((125 - doublings) as nat) == steps * pow2(125))
            by (nonlinear_arith)
            requires
                significand == steps * pow2(doublings),
                pow2(doublings) * pow2((125 - doublings) as nat) == pow2(125),
        ;
    }
    Scalar::from_bits(bits)
}

impl Sampler {
    /// The stream of the given seed. A chunk's stream is the one of its
    /// `chunk_seed`.
    pub fn seeded(seed: u64) -> Sampler {
        Sampler { rng: seeded_generator(seed) }
    }
}

/// Draws a uniform sample of the unit interval.
pub fn random(sampler: &mut Sampler) -> (sample: Scalar)
    ensures
        unit_sample(sample),
{
    let word = next_word(&mut sampler.rng);
    unit_sample_from(word)
}

/// Draws a vector of three uniform samples of the unit interval, first to
/// last.
pub fn random_vector(sampler: &mut Sampler) -> (v: Vector)
    ensures
        unit_sample(v.x),
        unit_sample(v.y),
        unit_sample(v.z),
{
    let x = random(sampler);
    let y = random(sampler);
    let z = random(sampler);
    Vector { x, y, z }
}

} // verus!
