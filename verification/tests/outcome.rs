use fuzz_engine::error::ConfigFault;
use fuzz_engine::error::FuzzError;
use fuzz_engine::outcome::classify;
use fuzz_engine::outcome::objective_met;
use fuzz_engine::outcome::RunOutcome;
use fuzz_engine::outcome::Signal;

#[test]
fn a_normal_return_in_time_is_completed() {
    assert_eq!(classify(Signal::Returned, 0, 100), RunOutcome::Completed);
    assert_eq!(classify(Signal::Returned, 100, 100), RunOutcome::Completed);
}

#[test]
fn a_fault_in_time_is_crashed() {
    assert_eq!(classify(Signal::Faulted, 0, 100), RunOutcome::Crashed);
    assert_eq!(classify(Signal::Faulted, 100, 100), RunOutcome::Crashed);
}

#[test]
fn a_run_over_its_budget_is_timed_out_and_not_crashed() {
    assert_eq!(classify(Signal::Returned, 101, 100), RunOutcome::TimedOut);
    assert_eq!(classify(Signal::Faulted, 101, 100), RunOutcome::TimedOut);
    assert_eq!(classify(Signal::Faulted, u64::MAX, 0), RunOutcome::TimedOut);
}

#[test]
fn a_crash_always_meets_the_objective() {
    assert!(objective_met(RunOutcome::Crashed, false));
    assert!(objective_met(RunOutcome::Crashed, true));
}

#[test]
fn a_timeout_meets_the_objective_only_by_policy() {
    assert!(!objective_met(RunOutcome::TimedOut, false));
    assert!(objective_met(RunOutcome::TimedOut, true));
}

#[test]
fn a_completed_run_never_meets_the_objective() {
    assert!(!objective_met(RunOutcome::Completed, false));
    assert!(!objective_met(RunOutcome::Completed, true));
}

#[test]
fn only_memory_and_configuration_errors_are_fatal() {
    assert!(FuzzError::AllocationFailure.is_fatal());
    assert!(FuzzError::ConfigurationError(ConfigFault::MapSize).is_fatal());
    assert!(FuzzError::ConfigurationError(ConfigFault::StackingBound).is_fatal());
    assert!(!FuzzError::HarnessFault.is_fatal());
    assert!(!FuzzError::ExecutionTimeout.is_fatal());
    assert!(!FuzzError::CorpusIoFailure.is_fatal());
}

#[test]
fn an_outcome_stands_for_an_error_that_is_not_fatal() {
    assert_eq!(FuzzError::of_outcome(RunOutcome::Completed), None);
    assert_eq!(FuzzError::of_outcome(RunOutcome::Crashed), Some(FuzzError::HarnessFault));
    assert_eq!(FuzzError::of_outcome(RunOutcome::TimedOut), Some(FuzzError::ExecutionTimeout));
}

#[test]
fn every_error_has_its_diagnostic() {
    assert_eq!(FuzzError::AllocationFailure.diagnostic(), "out of memory");
    assert_eq!(FuzzError::HarnessFault.diagnostic(), "the harness failed on an input");
    assert_eq!(FuzzError::ExecutionTimeout.diagnostic(), "a run exceeded its time budget");
    assert_eq!(FuzzError::CorpusIoFailure.diagnostic(), "a crash record could not be written");
    assert_eq!(
        FuzzError::ConfigurationError(ConfigFault::MapSize).diagnostic(),
        "the coverage map size must be a power of two"
    );
    assert_eq!(
        FuzzError::ConfigurationError(ConfigFault::StackingBound).diagnostic(),
        "the mutation stacking bound is too large"
    );
}
