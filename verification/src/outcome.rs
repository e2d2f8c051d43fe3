//! What a harness reports of one run, and how the engine classifies the run.

use vstd::prelude::*;

verus! {

/// How one call of a harness ended, as far as the harness itself can tell.
#[derive(Clone, Copy, Debug, PartialEq, Eq, Structural)]
pub enum Signal {
    /// The harness returned normally.
    Returned,
    /// The harness hit an unrecoverable failure.
    Faulted,
}

/// The engine's verdict on one execution.
#[derive(Clone, Copy, Debug, PartialEq, Eq, Structural)]
pub enum RunOutcome {
    /// The harness returned within its time budget.
    Completed,
    /// The harness failed.
    Crashed,
    /// The run went over its time budget.
    TimedOut,
}

/// Everything one run of a harness leaves behind: how it ended, how long it
/// took, and the coverage locations it touched, in the order it touched them.
#[derive(Debug)]
pub struct HarnessReport {
    /// How the harness ended.
    pub signal: Signal,
    /// How long the run took, in milliseconds.
    pub elapsed_ms: u64,
    /// The coverage locations that the run touched, in order.
    pub trace: Vec<usize>,
}

/// The outcome of a run that ended with `signal` after `elapsed_ms`
/// milliseconds, under a budget of `timeout_ms`. A run over its budget is
/// timed out whatever it signalled; a run within it is judged by its signal.
pub open spec fn outcome_of(signal: Signal, elapsed_ms: u64, timeout_ms: u64) -> RunOutcome {
    if elapsed_ms > timeout_ms {
        RunOutcome::TimedOut
    } else if signal == Signal::Faulted {
        RunOutcome::Crashed
    } else {
        RunOutcome::Completed
    }
}

/// Classifies a run by its signal and its duration.
pub fn classify(signal: Signal, elapsed_ms: u64, timeout_ms: u64) -> (outcome: RunOutcome)
    ensures
        outcome == outcome_of(signal, elapsed_ms, timeout_ms),
{
    if elapsed_ms > timeout_ms {
        RunOutcome::TimedOut
    } else {
        match signal {
            Signal::Faulted => RunOutcome::Crashed,
            Signal::Returned => RunOutcome::Completed,
        }
    }
}

/// Whether an outcome satisfies the objective: a crash always does, a timeout
/// only where the policy counts timeouts.
pub open spec fn is_objective(outcome: RunOutcome, timeout_is_objective: bool) -> bool {
    outcome == RunOutcome::Crashed || (outcome == RunOutcome::TimedOut && timeout_is_objective)
}

/// Decides whether an outcome satisfies the objective.
pub fn objective_met(outcome: RunOutcome, timeout_is_objective: bool) -> (met: bool)
    ensures
        met == is_objective(outcome, timeout_is_objective),
{
    match outcome {
        RunOutcome::Crashed => true,
        RunOutcome::TimedOut => timeout_is_objective,
        RunOutcome::Completed => false,
    }
}

} // verus!
