//! The session's source of randomness: a reproducible sequence of seeds, one
//! for each random choice the engine makes.

use vstd::prelude::*;

verus! {

/// The step from one seed of a sequence to the next: the odd constant of
/// Weyl sequences, 2^64 divided by the golden ratio.
pub const SEED_STEP: u64 = 0x9e37_79b9_7f4a_7c15u64;

/// The seed that follows `seed`.
pub open spec fn seed_after(seed: u64) -> u64 {
    seed.wrapping_add(SEED_STEP)
}

/// The seed that is `n` steps after `seed`.
pub open spec fn nth_seed(seed: u64, n: nat) -> u64
    decreases n,
{
    if n == 0 {
        seed
    } else {
        seed_after(nth_seed(seed, (n - 1) as nat))
    }
}

/// A sequence of seeds that a session seed determines.
pub struct SeedSequence {
    next: u64,
}

impl SeedSequence {
    /// The seed that the next draw returns.
    pub closed spec fn view(&self) -> u64 {
        self.next
    }

    /// Starts the sequence at the session seed `seed`.
    pub fn new(seed: u64) -> (seeds: SeedSequence)
        ensures
            seeds@ == seed,
    {
        SeedSequence { next: seed }
    }

    /// The seed that the next draw returns.
    pub fn peek(&self) -> (seed: u64)
        ensures
            seed == self@,
    {
        self.next
    }

    /// Returns the current seed and moves on to the one after it.
    pub fn draw(&mut self) -> (seed: u64)
        ensures
            seed == old(self)@,
            final(self)@ == seed_after(old(self)@),
    {
        let seed: u64 = self.next;
        self.next = seed.wrapping_add(SEED_STEP);
        seed
    }
}

} // verus!
