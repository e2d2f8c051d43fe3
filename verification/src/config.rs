//! The settings of a fuzzing session.

use vstd::prelude::*;
use vstd::arithmetic::power2::is_pow2;
use crate::error::ConfigFault;
use crate::error::FuzzError;
use crate::mutator::MAX_STACK_POW;
use crate::observer::is_power_of_two;

verus! {

/// The settings that the engine reads.
#[derive(Clone, Copy, Debug)]
pub struct Config {
    /// The number of counters of the coverage map: a power of two.
    pub map_size: usize,
    /// The length of the inputs that the generator makes.
    pub seed_len: usize,
    /// The time budget of one run, in milliseconds.
    pub timeout_ms: u64,
    /// The stacking bound of the mutation engine.
    pub stack_pow: usize,
    /// How many mutations in a row turn a picked input into a candidate.
    pub mutations_per_seed: usize,
    /// Whether a timed-out run satisfies the objective.
    pub timeout_is_objective: bool,
}

/// The settings of a session that was given none.
pub open spec fn default_config() -> Config {
    Config {
        map_size: 65536,
        seed_len: 16,
        timeout_ms: 5000,
        stack_pow: 7,
        mutations_per_seed: 1,
        timeout_is_objective: false,
    }
}

impl Default for Config {
    fn default() -> (config: Config)
        ensures
            config == default_config(),
            config.valid(),
    {
        proof {
            reveal_with_fuel(is_pow2, 18);
        }
        Config {
            map_size: 65536,
            seed_len: 16,
            timeout_ms: 5000,
            stack_pow: 7,
            mutations_per_seed: 1,
            timeout_is_objective: false,
        }
    }
}

impl Config {
    /// The settings a session can start with: the map size is a power of
    /// two and the stacking bound is within the supported range.
    pub open spec fn valid(self) -> bool {
        is_pow2(self.map_size as int) && self.stack_pow <= MAX_STACK_POW
    }

    /// What is wrong with the settings, if anything: the map size is looked
    /// at first.
    pub open spec fn fault(self) -> Option<ConfigFault> {
        if !is_pow2(self.map_size as int) {
            Some(ConfigFault::MapSize)
        } else if self.stack_pow > MAX_STACK_POW {
            Some(ConfigFault::StackingBound)
        } else {
            None
        }
    }

    /// Checks the settings, and names the first one that a session cannot
    /// start with.
    pub fn validate(&self) -> (checked: Result<(), FuzzError>)
        ensures
            self.valid() <==> checked is Ok,
            self.fault() matches Some(fault) ==> checked == Err::<(), FuzzError>(
                FuzzError::ConfigurationError(fault),
            ),
    {
        if !is_power_of_two(self.map_size) {
            Err(FuzzError::ConfigurationError(ConfigFault::MapSize))
        } else if self.stack_pow > MAX_STACK_POW {
            Err(FuzzError::ConfigurationError(ConfigFault::StackingBound))
        } else {
            Ok(())
        }
    }
}

} // verus!
