//! The engine's error taxonomy.

use vstd::prelude::*;
use crate::outcome::RunOutcome;

verus! {

/// The setting that a configuration error is about.
#[derive(Clone, Copy, Debug, PartialEq, Eq, Structural)]
pub enum ConfigFault {
    /// The coverage map's size is not a power of two.
    MapSize,
    /// The mutation stacking bound is above the largest one supported.
    StackingBound,
}

/// What can go wrong in a fuzzing session.
#[derive(Clone, Copy, Debug, PartialEq, Eq, Structural)]
pub enum FuzzError {
    /// Memory ran out.
    AllocationFailure,
    /// The harness failed on an input.
    HarnessFault,
    /// A run went over its time budget.
    ExecutionTimeout,
    /// A crash record could not be written.
    CorpusIoFailure,
    /// The session was configured with a value it cannot run with.
    ConfigurationError(ConfigFault),
}

impl FuzzError {
    /// The errors that end a session: running out of memory, and a
    /// configuration the session cannot start with. Whatever arises from one
    /// candidate input stays within its iteration.
    pub open spec fn fatal(self) -> bool {
        self == FuzzError::AllocationFailure || self is ConfigurationError
    }

    /// Whether this error ends the session.
    pub fn is_fatal(&self) -> (fatal: bool)
        ensures
            fatal == self.fatal(),
    {
        match self {
            FuzzError::AllocationFailure => true,
            FuzzError::ConfigurationError(_) => true,
            FuzzError::HarnessFault => false,
            FuzzError::ExecutionTimeout => false,
            FuzzError::CorpusIoFailure => false,
        }
    }

    /// The error, if any, that an outcome stands for.
    pub open spec fn from_outcome(outcome: RunOutcome) -> Option<FuzzError> {
        match outcome {
            RunOutcome::Completed => None,
            RunOutcome::Crashed => Some(FuzzError::HarnessFault),
            RunOutcome::TimedOut => Some(FuzzError::ExecutionTimeout),
        }
    }

    /// Names the error that an outcome stands for: none for a completed run.
    pub fn of_outcome(outcome: RunOutcome) -> (error: Option<FuzzError>)
        ensures
            error == Self::from_outcome(outcome),
            error matches Some(e) ==> !e.fatal(),
    {
        match outcome {
            RunOutcome::Completed => None,
            RunOutcome::Crashed => Some(FuzzError::HarnessFault),
            RunOutcome::TimedOut => Some(FuzzError::ExecutionTimeout),
        }
    }

    /// The diagnostic text of each error.
    pub open spec fn diagnostic_text(self) -> Seq<char> {
        match self {
            FuzzError::AllocationFailure => "out of memory"@,
            FuzzError::HarnessFault => "the harness failed on an input"@,
            FuzzError::ExecutionTimeout => "a run exceeded its time budget"@,
            FuzzError::CorpusIoFailure => "a crash record could not be written"@,
            FuzzError::ConfigurationError(ConfigFault::MapSize) =>
                "the coverage map size must be a power of two"@,
            FuzzError::ConfigurationError(ConfigFault::StackingBound) =>
                "the mutation stacking bound is too large"@,
        }
    }

    /// A diagnostic that names the failing precondition.
    pub fn diagnostic(&self) -> (text: &'static str)
        ensures
            text@ == self.diagnostic_text(),
    {
        match self {
            FuzzError::AllocationFailure => "out of memory",
            FuzzError::HarnessFault => "the harness failed on an input",
            FuzzError::ExecutionTimeout => "a run exceeded its time budget",
            FuzzError::CorpusIoFailure => "a crash record could not be written",
            FuzzError::ConfigurationError(ConfigFault::MapSize) =>
                "the coverage map size must be a power of two",
            FuzzError::ConfigurationError(ConfigFault::StackingBound) =>
                "the mutation stacking bound is too large",
        }
    }
}

} // verus!
