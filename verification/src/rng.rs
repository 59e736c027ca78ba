//! The seeded generator that every random choice is drawn from.
//!
//! The generator is `rand`'s `SmallRng`. Its draws are functions of its state,
//! and its state after seeding is a function of the seed and of the target's
//! pointer width; these functions are named here and not defined. `rand`
//! promises them for one version of the crate only, which the lock file
//! fixes.
//!
//! A fraction is drawn as `rand` draws a single-precision float in `[0, 1)`:
//! the 24 high bits of one word, over two to the 24th. This module keeps the
//! numerator, so that a threshold is compared in whole numbers.

use rand::rngs::SmallRng;
use rand::RngExt;
use rand::SeedableRng;
use vstd::prelude::*;

verus! {

/// `rand::rngs::SmallRng`, a value that is carried through and never looked
/// into.
#[verifier::external_type_specification]
#[verifier::external_body]
pub struct ExSmallRng(SmallRng);

/// What a generator holds: the width in bits of one word of its state, then
/// the words of its state in order.
pub uninterp spec fn rng_state(rng: SmallRng) -> Seq<u64>;

/// The state of a generator that was just seeded with `seed` on a target
/// whose pointers have `pointer_bits` bits.
pub uninterp spec fn seeded_state(seed: u64, pointer_bits: u32) -> Seq<u64>;

/// The next 32-bit word that a generator in `state` gives, and the state it
/// is left in.
pub uninterp spec fn word_draw(state: Seq<u64>) -> (u32, Seq<u64>);

/// The index below `bound` that a generator in `state` picks, and the state
/// it is left in.
pub uninterp spec fn index_draw(state: Seq<u64>, bound: usize) -> (usize, Seq<u64>);

/// `SmallRng::seed_from_u64`: the generator for a seed. Trusted: the state
/// of the generator depends on the seed and on the pointer width alone; the
/// pointer width decides which algorithm `SmallRng` is.
#[verifier::external_body]
pub(crate) fn seed_from_u64(seed: u64) -> (rng: SmallRng)
    ensures
        rng_state(rng) == seeded_state(seed, usize::BITS),
{
    SmallRng::seed_from_u64(seed)
}

/// `RngExt::random` at `u32`, which is the next 32-bit word of the
/// generator. Trusted: the word and the state afterwards depend on the state
/// before alone.
#[verifier::external_body]
pub(crate) fn random_word(rng: &mut SmallRng) -> (word: u32)
    ensures
        (word, rng_state(*final(rng))) == word_draw(rng_state(*old(rng))),
{
    rng.random()
}

/// `RngExt::random_range` on `0..bound`: a uniform index. Trusted: the index
/// is below `bound`; it and the state afterwards depend on the state before
/// and on `bound` alone. The range must not be empty.
#[verifier::external_body]
pub(crate) fn random_index(rng: &mut SmallRng, bound: usize) -> (index: usize)
    requires
        bound > 0,
    ensures
        (index, rng_state(*final(rng))) == index_draw(rng_state(*old(rng)), bound),
        index < bound,
{
    rng.random_range(0..bound)
}

/// One: the denominator of the fractions that the generator draws.
pub const FRACTION_ONE: u32 = 0x100_0000;

/// The fraction that a word stands for, as a numerator over
/// [`FRACTION_ONE`]: its 24 high bits. It is below one.
pub open spec fn unit_fraction(word: u32) -> u32 {
    word / 256
}

/// The fraction that a drawn word stands for.
pub fn fraction_of(word: u32) -> (fraction: u32)
    ensures
        fraction == unit_fraction(word),
        fraction < FRACTION_ONE,
{
    assert(word >> 8 == word / 256) by (bit_vector);
    word >> 8
}

/// Draws a uniform fraction in `[0, 1)`, as a numerator over
/// [`FRACTION_ONE`]. It uses up one word of the generator.
pub fn random_fraction(rng: &mut SmallRng) -> (fraction: u32)
    ensures
        fraction == unit_fraction(word_draw(rng_state(*old(rng))).0),
        rng_state(*final(rng)) == word_draw(rng_state(*old(rng))).1,
        fraction < FRACTION_ONE,
{
    let word = random_word(rng);
    fraction_of(word)
}

} // verus!
