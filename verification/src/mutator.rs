//! The mutation engine: derived inputs, made by stacking randomly chosen
//! byte-level operators on a seed input.

use vstd::prelude::*;
use libafl::inputs::BytesInput;
use libafl::mutators::havoc_mutations_no_crossover;
use libafl::mutators::HavocScheduledMutator;
use libafl::mutators::Mutator;
use libafl::state::HasRand;
use libafl::state::NopState;
use libafl_bolts::rands::Rand;
use crate::error::ConfigFault;
use crate::error::FuzzError;
use crate::random::seed_after;
use crate::random::SeedSequence;

verus! {

/// The largest stacking bound: one call stacks at most two to this power
/// operators.
pub const MAX_STACK_POW: usize = 16;

/// What libafl's havoc mutator with the stacking bound `stack_pow` makes of
/// `input` when the random generator was seeded with `seed`, on the target
/// that the crate is built for: the operators that add to words of two,
/// four and eight bytes read them in the target's byte order.
pub uninterp spec fn havoc_bytes(seed: u64, stack_pow: usize, input: Seq<u8>) -> Seq<u8>;

/// Calls `HavocScheduledMutator::with_max_stack_pow(havoc_mutations_no_crossover(),
/// stack_pow).mutate(..)` on a copy of `input`, with a state whose random
/// generator was seeded with `seed`. The operators read nothing but the
/// input, the random generator and the state's fixed size limit, so on one
/// target the result depends on the three arguments alone. With a bound of
/// 63 or less the count of stacked operators does not overflow.
#[verifier::external_body]
fn havoc(seed: u64, stack_pow: usize, input: &Vec<u8>) -> (bytes: Vec<u8>)
    requires
        stack_pow <= MAX_STACK_POW,
    ensures
        bytes@ == havoc_bytes(seed, stack_pow, input@),
{
    let mut state = NopState::<BytesInput>::new();
    state.rand_mut().set_seed(seed);
    let mut candidate = BytesInput::new(input.clone());
    let mut mutator =
        HavocScheduledMutator::with_max_stack_pow(havoc_mutations_no_crossover(), stack_pow);
    let _ = mutator.mutate(&mut state, &mut candidate);
    candidate.into()
}

/// The input that a mutation settles on: the operators' result, unless they
/// emptied a seed that was not empty; then the seed itself. So the length
/// floor of a mutation is one byte for every seed that has one.
pub open spec fn settled(seed_input: Seq<u8>, result: Seq<u8>) -> Seq<u8> {
    if seed_input.len() > 0 && result.len() == 0 {
        seed_input
    } else {
        result
    }
}

/// Keeps the operators' `result` unless it breaks the length floor, and
/// falls back to a copy of the seed input where it does.
pub fn settle(seed_input: &Vec<u8>, result: Vec<u8>) -> (input: Vec<u8>)
    ensures
        input@ == settled(seed_input@, result@),
        seed_input@.len() > 0 ==> input@.len() > 0,
{
    if seed_input.len() > 0 && result.len() == 0 {
        seed_input.clone()
    } else {
        result
    }
}

/// What one mutation with the seed `seed` makes of `input`.
pub open spec fn mutated(seed: u64, stack_pow: usize, input: Seq<u8>) -> Seq<u8> {
    settled(input, havoc_bytes(seed, stack_pow, input))
}

/// The mutation engine, with its stacking bound.
#[derive(Clone, Copy, Debug)]
pub struct MutationEngine {
    stack_pow: usize,
}

impl MutationEngine {
    /// The stacking bound.
    pub closed spec fn view(&self) -> usize {
        self.stack_pow
    }

    /// The stacking bound is within the supported range.
    #[verifier::type_invariant]
    spec fn well_formed(&self) -> bool {
        self.stack_pow <= MAX_STACK_POW
    }

    /// Makes an engine with the stacking bound `stack_pow`. A bound above
    /// `MAX_STACK_POW` is a configuration error.
    pub fn new(stack_pow: usize) -> (made: Result<MutationEngine, FuzzError>)
        ensures
            stack_pow <= MAX_STACK_POW ==> made is Ok && made->Ok_0@ == stack_pow,
            stack_pow > MAX_STACK_POW ==> made == Err::<MutationEngine, FuzzError>(
                FuzzError::ConfigurationError(ConfigFault::StackingBound),
            ),
    {
        if stack_pow > MAX_STACK_POW {
            Err(FuzzError::ConfigurationError(ConfigFault::StackingBound))
        } else {
            Ok(MutationEngine { stack_pow })
        }
    }

    /// The stacking bound.
    pub fn stack_pow(&self) -> (bound: usize)
        ensures
            bound == self@,
            bound <= MAX_STACK_POW,
    {
        proof {
            use_type_invariant(self);
        }
        self.stack_pow
    }

    /// Derives a new input from `input` with the next seed of the sequence.
    /// The seed input is left as it is. Every input is accepted, the empty
    /// one too; an input that is not empty never yields an empty one.
    pub fn mutate(&self, seeds: &mut SeedSequence, input: &Vec<u8>) -> (derived: Vec<u8>)
        ensures
            derived@ == mutated(old(seeds)@, self@, input@),
            input@.len() > 0 ==> derived@.len() > 0,
            final(seeds)@ == seed_after(old(seeds)@),
    {
        proof {
            use_type_invariant(self);
        }
        let seed: u64 = seeds.draw();
        let result: Vec<u8> = havoc(seed, self.stack_pow, input);
        settle(input, result)
    }
}

} // verus!
