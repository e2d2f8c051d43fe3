//! The executor: one run of a harness on one input, with the coverage it
//! leaves behind and the outcome it is classified as.

use vstd::prelude::*;
use crate::observer::lemma_replayed_len;
use crate::observer::replayed;
use crate::observer::zeroed;
use crate::observer::CoverageObserver;
use crate::outcome::outcome_of;
use crate::outcome::classify;
use crate::outcome::HarnessReport;
use crate::outcome::RunOutcome;

verus! {

/// The signal area after a run that left `report` behind, in an area of
/// `size` counters that was cleared before the run.
pub open spec fn coverage_of(size: nat, report: HarnessReport) -> Seq<u8> {
    replayed(zeroed(size), report.trace@)
}

/// The outcome of a run that left `report` behind, under a budget of
/// `timeout_ms` milliseconds.
pub open spec fn verdict_of(report: HarnessReport, timeout_ms: u64) -> RunOutcome {
    outcome_of(report.signal, report.elapsed_ms, timeout_ms)
}

/// Takes in what one run left behind: replays the run's trace on the signal
/// area, and returns the run's outcome with a snapshot of the area. The
/// snapshot is taken whatever the outcome is.
pub fn conclude(
    observer: &mut CoverageObserver,
    report: &HarnessReport,
    timeout_ms: u64,
) -> (run: (RunOutcome, Vec<u8>))
    ensures
        run.0 == verdict_of(*report, timeout_ms),
        run.1@ == replayed(old(observer)@, report.trace@),
        run.1@.len() == old(observer)@.len(),
        final(observer)@ == run.1@,
{
    proof {
        lemma_replayed_len(observer@, report.trace@);
    }
    observer.record_all(&report.trace);
    let outcome: RunOutcome = classify(report.signal, report.elapsed_ms, timeout_ms);
    (outcome, observer.snapshot())
}

/// Runs `harness` on `input`: clears the signal area, calls the harness, and
/// returns what `conclude` makes of the report that the harness handed back.
/// The snapshot holds the signal of this run alone, whatever the area held
/// before.
pub fn execute<H: Fn(&Vec<u8>) -> HarnessReport>(
    observer: &mut CoverageObserver,
    harness: &H,
    input: &Vec<u8>,
    timeout_ms: u64,
) -> (run: (RunOutcome, Vec<u8>))
    requires
        call_requires(*harness, (input,)),
    ensures
        exists|report: HarnessReport|
            call_ensures(*harness, (input,), report) && run.0 == verdict_of(report, timeout_ms)
                && run.1@ == coverage_of(old(observer)@.len(), report),
        run.1@.len() == old(observer)@.len(),
        final(observer)@ == run.1@,
{
    observer.reset();
    let report: HarnessReport = harness(input);
    conclude(observer, &report, timeout_ms)
}

} // verus!
