//! The random generator behind `RND`: a generator of the `rand` crate once
//! the machine is seeded, a fixed value before.

use crate::machine::Machine;
use rand::rngs::SmallRng;
use rand::RngCore;
use rand::SeedableRng;
use vstd::prelude::*;

verus! {

/// `rand::rngs::SmallRng`, carried as an opaque value.
#[verifier::external_type_specification]
#[verifier::external_body]
pub struct ExSmallRng(SmallRng);

/// The generator that `SmallRng::seed_from_u64` builds from a seed.
pub uninterp spec fn seeded_generator(seed: u64) -> SmallRng;

/// The word that `SmallRng::next_u32` draws from a generator, and the
/// generator as the draw leaves it.
pub uninterp spec fn generator_step(rng: SmallRng) -> (u32, SmallRng);

/// Calls `SmallRng::seed_from_u64`.
///
/// Trusted: seeding reads nothing but the seed, so one seed always gives the
/// same generator. Which generator that is depends on the build (the algorithm
/// follows the target's pointer width) and is left unstated.
#[verifier::external_body]
pub(crate) fn generator_from_seed(seed: u64) -> (rng: SmallRng)
    ensures
        rng == seeded_generator(seed),
{
    SmallRng::seed_from_u64(seed)
}

/// Calls `SmallRng::next_u32`.
///
/// Trusted: the word drawn and the state left behind are fixed by the state
/// the generator was in; nothing else is read. The call cannot panic.
#[verifier::external_body]
pub(crate) fn generator_next(rng: &mut SmallRng) -> (word: u32)
    ensures
        (word, *final(rng)) == generator_step(*old(rng)),
    no_unwind
{
    rng.next_u32()
}

/// The word that an unseeded machine draws, every time.
pub const UNSEEDED_WORD: u32 = 1;

/// What a draw yields and leaves behind: the generator's next word and the
/// generator moved on, or the fixed fallback when there is no generator.
pub open spec fn random_word(rng: Option<SmallRng>) -> (u32, Option<SmallRng>) {
    match rng {
        Some(g) => (generator_step(g).0, Some(generator_step(g).1)),
        None => (UNSEEDED_WORD, None),
    }
}

/// The byte that `RND` stores for a word drawn: its low byte, masked by `kk`.
pub open spec fn masked_byte(word: u32, kk: u8) -> u8 {
    ((word % 256) as u8) & kk
}

impl Machine {
    /// The machine with its generator replaced by the one that `seed` gives.
    pub open spec fn set_random_seed(self, seed: u64) -> Machine {
        Machine { rng: Some(seeded_generator(seed)), ..self }
    }
}

/// Draws the next random word: from the generator if the machine has one,
/// the fixed fallback otherwise.
pub(crate) fn next_random_word(rng: &mut Option<SmallRng>) -> (word: u32)
    ensures
        (word, *final(rng)) == random_word(*old(rng)),
    no_unwind
{
    match rng {
        Some(g) => generator_next(g),
        None => UNSEEDED_WORD,
    }
}

/// Turns a word drawn from the generator into the byte that `RND` stores:
/// the low byte of the word, masked by `kk`.
pub fn mask_random(word: u32, kk: u8) -> (byte: u8)
    ensures
        byte == masked_byte(word, kk),
{
    ((word % 256) as u8) & kk
}

} // verus!
