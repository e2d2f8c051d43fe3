//! The generator: fresh pseudo-random inputs of a requested length.

use vstd::prelude::*;
use core::num::NonZeroUsize;
use libafl::generators::Generator;
use libafl::generators::RandBytesGenerator;
use libafl::inputs::BytesInput;
use libafl::state::HasRand;
use libafl::state::NopState;
use libafl_bolts::rands::Rand;
use crate::random::seed_after;
use crate::random::SeedSequence;

verus! {

/// The bytes that libafl's `RandBytesGenerator` produces when its minimum
/// and maximum size are both `length` and its random generator was seeded
/// with `seed`.
pub uninterp spec fn random_bytes(seed: u64, length: usize) -> Seq<u8>;

/// Calls `RandBytesGenerator::with_min_size(length, length).generate(..)` on
/// a state whose random generator was seeded with `seed`. The generator
/// draws its size between the two bounds, here equal, and then that many
/// bytes from the random generator, so the result has `length` bytes and
/// depends on the two arguments alone. The call never fails.
#[verifier::external_body]
fn random_input(seed: u64, length: usize) -> (bytes: Vec<u8>)
    requires
        length > 0,
    ensures
        bytes@ == random_bytes(seed, length),
        bytes@.len() == length,
{
    let mut state = NopState::<BytesInput>::new();
    state.rand_mut().set_seed(seed);
    let size = NonZeroUsize::new(length).unwrap_or(NonZeroUsize::MIN);
    let mut generator = RandBytesGenerator::with_min_size(size, size);
    generator.generate(&mut state).map(Vec::from).unwrap_or_default()
}

/// The input of `length` bytes that the seed `seed` generates: the random
/// bytes for a positive length, the empty input for length zero.
pub open spec fn generated(seed: u64, length: usize) -> Seq<u8> {
    if length == 0 {
        Seq::<u8>::empty()
    } else {
        random_bytes(seed, length)
    }
}

/// Generates a fresh input of exactly `length` bytes from the next seed of
/// the sequence.
pub fn generate(seeds: &mut SeedSequence, length: usize) -> (input: Vec<u8>)
    ensures
        input@ == generated(old(seeds)@, length),
        input@.len() == length,
        final(seeds)@ == seed_after(old(seeds)@),
{
    let seed: u64 = seeds.draw();
    if length == 0 {
        Vec::new()
    } else {
        random_input(seed, length)
    }
}

} // verus!
