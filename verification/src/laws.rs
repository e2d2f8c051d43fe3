//! What holds of every session: the laws that relate the engine's steps to
//! one another.

use vstd::prelude::*;
use crate::corpus::EntryView;
use crate::crashes::lemma_no_duplicate_content;
use crate::crashes::lemma_recorded_keyed_once;
use crate::executor::coverage_of;
use crate::executor::verdict_of;
use crate::feedback::covered;
use crate::feedback::extends;
use crate::feedback::lemma_cleared_adds_nothing;
use crate::feedback::lemma_extends_chain;
use crate::feedback::lemma_merged_extends;
use crate::feedback::novel;
use crate::fuzzer::candidate_of;
use crate::fuzzer::evaluated;
use crate::fuzzer::halted;
use crate::fuzzer::produced;
use crate::fuzzer::reaches;
use crate::fuzzer::Session;
use crate::fuzzer::sound;
use crate::fuzzer::Stats;
use crate::fuzzer::step_of;
use crate::fuzzer::step_verdict;
use crate::fuzzer::stepped;
use crate::fuzzer::Verdict;
use crate::fuzzer::watched;
use crate::fuzzer::watched_step;
use crate::observer::lemma_replayed_len;
use crate::observer::zeroed;
use crate::outcome::HarnessReport;
use crate::outcome::outcome_of;
use crate::outcome::RunOutcome;
use crate::outcome::Signal;

verus! {

/// `longer` begins with all of `shorter`, entry for entry.
pub open spec fn begins_with<T>(longer: Seq<T>, shorter: Seq<T>) -> bool {
    shorter.len() <= longer.len() && forall|i: int|
        0 <= i < shorter.len() ==> #[trigger] longer[i] == shorter[i]
}

/// The coverage union dominates the signature of every corpus entry: what
/// made an entry interesting is part of the union.
pub open spec fn grounded(s: Session) -> bool {
    forall|i: int|
        0 <= i < s.corpus.len() ==> extends(s.history, (#[trigger] s.corpus[i]).signature)
}

/// Determinism: what a session produces next depends on its seed, its
/// corpus, its cursor and its settings alone. Two sessions that agree on
/// these produce the same candidate and go on with the same seed and
/// cursor.
pub proof fn law_same_state_same_candidate(a: Session, b: Session)
    requires
        a.seed == b.seed,
        a.corpus == b.corpus,
        a.cursor == b.cursor,
        a.config == b.config,
    ensures
        candidate_of(a) == candidate_of(b),
        produced(a).seed == produced(b).seed,
        produced(a).cursor == produced(b).cursor,
{
}

/// Two reports tell of the same run: the same signal, the same duration and
/// the same trace.
pub open spec fn same_run(a: HarnessReport, b: HarnessReport) -> bool {
    a.signal == b.signal && a.elapsed_ms == b.elapsed_ms && a.trace@ == b.trace@
}

/// A harness is repeatable if it reports the same run whenever it is given
/// the same bytes.
pub open spec fn repeatable<H: Fn(&Vec<u8>) -> HarnessReport>(harness: H) -> bool {
    forall|a: Vec<u8>, b: Vec<u8>, ra: HarnessReport, rb: HarnessReport|
        a@ == b@ && #[trigger] call_ensures(harness, (&a,), ra) && #[trigger] call_ensures(
            harness,
            (&b,),
            rb,
        ) ==> same_run(ra, rb)
}

/// Determinism of a whole iteration: reports of the same run lead from one
/// state to one state, with one verdict.
pub proof fn law_same_run_same_step(s: Session, a: HarnessReport, b: HarnessReport)
    requires
        same_run(a, b),
    ensures
        stepped(s, a) == stepped(s, b),
        step_verdict(s, a) == step_verdict(s, b),
{
}

/// Reproducibility: with a repeatable harness, the state of a session after
/// any number of iterations is determined by the state it started in, and
/// so by its settings and its session seed.
pub proof fn law_session_is_reproducible<H: Fn(&Vec<u8>) -> HarnessReport>(
    harness: H,
    from: Session,
    first: Session,
    second: Session,
    steps: nat,
)
    requires
        repeatable(harness),
        reaches(harness, from, first, steps),
        reaches(harness, from, second, steps),
    ensures
        first == second,
    decreases steps,
{
    if steps > 0 {
        let mid_a = choose|mid: Session|
            reaches(harness, from, mid, (steps - 1) as nat) && step_of(harness, mid, first);
        let mid_b = choose|mid: Session|
            reaches(harness, from, mid, (steps - 1) as nat) && step_of(harness, mid, second);
        law_session_is_reproducible(harness, from, mid_a, mid_b, (steps - 1) as nat);
        let (input_a, report_a) = choose|input: Vec<u8>, report: HarnessReport|
            input@ == candidate_of(mid_a) && call_ensures(harness, (&input,), report) && first
                == stepped(mid_a, report);
        let (input_b, report_b) = choose|input: Vec<u8>, report: HarnessReport|
            input@ == candidate_of(mid_b) && call_ensures(harness, (&input,), report) && second
                == stepped(mid_b, report);
        assert(same_run(report_a, report_b));
        law_same_run_same_step(mid_a, report_a, report_b);
    }
}

/// Producing a candidate leaves the corpus, the coverage union and the
/// crash records as they are: no stored input is changed by a mutation.
pub proof fn law_produce_keeps_store(s: Session)
    ensures
        produced(s).corpus == s.corpus,
        produced(s).history == s.history,
        produced(s).crashes == s.crashes,
{
}

/// Judging one run never loses coverage, keeps every corpus entry in its
/// place, and adds an entry only for a snapshot that was interesting against
/// the union so far: then the new entry holds the candidate and that
/// snapshot.
pub proof fn law_evaluate_grows(
    s: Session,
    candidate: Seq<u8>,
    outcome: RunOutcome,
    snapshot: Seq<u8>,
)
    ensures
        extends(evaluated(s, candidate, outcome, snapshot).history, s.history),
        begins_with(evaluated(s, candidate, outcome, snapshot).corpus, s.corpus),
        novel(s.history, snapshot) ==> evaluated(s, candidate, outcome, snapshot).corpus
            == s.corpus.push(EntryView { input: candidate, signature: snapshot }),
        !novel(s.history, snapshot) ==> evaluated(s, candidate, outcome, snapshot).corpus
            == s.corpus,
{
    lemma_merged_extends(s.history, snapshot);
}

/// Judging one run keeps the session in a state it can be in, and keeps the
/// coverage union above every kept signature.
pub proof fn law_evaluate_keeps_sound(
    s: Session,
    candidate: Seq<u8>,
    outcome: RunOutcome,
    snapshot: Seq<u8>,
)
    requires
        sound(s),
    ensures
        sound(evaluated(s, candidate, outcome, snapshot)),
        grounded(s) ==> grounded(evaluated(s, candidate, outcome, snapshot)),
{
    let after = evaluated(s, candidate, outcome, snapshot);
    lemma_recorded_keyed_once(s.crashes, candidate);
    lemma_merged_extends(s.history, snapshot);
    if grounded(s) {
        assert forall|i: int| 0 <= i < after.corpus.len() implies extends(
            after.history,
            (#[trigger] after.corpus[i]).signature,
        ) by {
            if i < s.corpus.len() {
                assert(after.corpus[i] == s.corpus[i]);
                lemma_extends_chain(s.corpus[i].signature, s.history, after.history);
            } else {
                assert(after.corpus[i].signature == snapshot);
                assert(novel(s.history, snapshot));
            }
        }
    }
}

/// One whole iteration keeps the session in a state it can be in.
pub proof fn law_step_keeps_sound(s: Session, report: HarnessReport)
    requires
        sound(s),
    ensures
        sound(stepped(s, report)),
        grounded(s) ==> grounded(stepped(s, report)),
        extends(stepped(s, report).history, s.history),
        begins_with(stepped(s, report).corpus, s.corpus),
        begins_with(stepped(s, report).crashes, s.crashes),
{
    let size = s.config.map_size as nat;
    let snapshot = coverage_of(size, report);
    let ran = Session { signal: snapshot, ..produced(s) };
    lemma_replayed_len(zeroed(size), report.trace@);
    assert(sound(ran));
    assert(grounded(s) ==> grounded(ran)) by {
        if grounded(s) {
            assert forall|i: int| 0 <= i < ran.corpus.len() implies extends(
                ran.history,
                (#[trigger] ran.corpus[i]).signature,
            ) by {
                assert(ran.corpus[i] == s.corpus[i]);
            }
        }
    }
    let outcome = verdict_of(report, s.config.timeout_ms);
    law_evaluate_keeps_sound(ran, candidate_of(s), outcome, snapshot);
    law_evaluate_grows(ran, candidate_of(s), outcome, snapshot);
}

/// What the fuzzer loop did under a monitor is a run of as many plain
/// iterations, whether the monitor let it go on to the end or halted it.
pub proof fn law_watched_run_reaches<
    H: Fn(&Vec<u8>) -> HarnessReport,
    M: Fn(Stats, Verdict) -> bool,
>(
    harness: H,
    monitor: M,
    from: Session,
    to: Session,
    steps: nat,
)
    requires
        watched(harness, monitor, from, to, steps) || halted(harness, monitor, from, to, steps),
    ensures
        reaches(harness, from, to, steps),
    decreases steps,
{
    if steps > 0 {
        if watched(harness, monitor, from, to, steps) {
            let mid = choose|mid: Session|
                watched(harness, monitor, from, mid, (steps - 1) as nat) && watched_step(
                    harness,
                    monitor,
                    mid,
                    to,
                    true,
                );
            law_watched_run_reaches(harness, monitor, from, mid, (steps - 1) as nat);
            assert(step_of(harness, mid, to));
        } else {
            let mid = choose|mid: Session|
                watched(harness, monitor, from, mid, (steps - 1) as nat) && watched_step(
                    harness,
                    monitor,
                    mid,
                    to,
                    false,
                );
            law_watched_run_reaches(harness, monitor, from, mid, (steps - 1) as nat);
            assert(step_of(harness, mid, to));
        }
    }
}

/// Coverage monotonicity: over any number of iterations the coverage union
/// loses nothing. A location that is covered stays covered.
pub proof fn law_coverage_never_shrinks<H: Fn(&Vec<u8>) -> HarnessReport>(
    harness: H,
    from: Session,
    to: Session,
    steps: nat,
)
    requires
        reaches(harness, from, to, steps),
    ensures
        extends(to.history, from.history),
        forall|location: int| covered(from.history, location) ==> covered(to.history, location),
    decreases steps,
{
    if steps > 0 {
        let mid = choose|mid: Session|
            reaches(harness, from, mid, (steps - 1) as nat) && step_of(harness, mid, to);
        law_coverage_never_shrinks(harness, from, mid, (steps - 1) as nat);
        let (input, report) = choose|input: Vec<u8>, report: HarnessReport|
            input@ == candidate_of(mid) && call_ensures(harness, (&input,), report) && to
                == stepped(mid, report);
        lemma_merged_extends(mid.history, coverage_of(mid.config.map_size as nat, report));
        lemma_extends_chain(from.history, mid.history, to.history);
    }
}

/// Retention: over any number of iterations every corpus entry and every
/// crash record stays in its place, unchanged.
pub proof fn law_stores_only_grow<H: Fn(&Vec<u8>) -> HarnessReport>(
    harness: H,
    from: Session,
    to: Session,
    steps: nat,
)
    requires
        reaches(harness, from, to, steps),
    ensures
        begins_with(to.corpus, from.corpus),
        begins_with(to.crashes, from.crashes),
    decreases steps,
{
    if steps > 0 {
        let mid = choose|mid: Session|
            reaches(harness, from, mid, (steps - 1) as nat) && step_of(harness, mid, to);
        law_stores_only_grow(harness, from, mid, (steps - 1) as nat);
        let (input, report) = choose|input: Vec<u8>, report: HarnessReport|
            input@ == candidate_of(mid) && call_ensures(harness, (&input,), report) && to
                == stepped(mid, report);
        assert(begins_with(to.corpus, mid.corpus));
        assert(begins_with(to.crashes, mid.crashes));
        assert forall|i: int| 0 <= i < from.corpus.len() implies #[trigger] to.corpus[i]
            == from.corpus[i] by {
            assert(mid.corpus[i] == from.corpus[i]);
        }
        assert forall|i: int| 0 <= i < from.crashes.len() implies #[trigger] to.crashes[i]
            == from.crashes[i] by {
            assert(mid.crashes[i] == from.crashes[i]);
        }
    }
}

/// Over any number of iterations a session stays in a state it can be in,
/// and its coverage union stays above every kept signature.
pub proof fn law_session_stays_sound<H: Fn(&Vec<u8>) -> HarnessReport>(
    harness: H,
    from: Session,
    to: Session,
    steps: nat,
)
    requires
        sound(from),
        reaches(harness, from, to, steps),
    ensures
        sound(to),
        grounded(from) ==> grounded(to),
    decreases steps,
{
    if steps > 0 {
        let mid = choose|mid: Session|
            reaches(harness, from, mid, (steps - 1) as nat) && step_of(harness, mid, to);
        law_session_stays_sound(harness, from, mid, (steps - 1) as nat);
        let (input, report) = choose|input: Vec<u8>, report: HarnessReport|
            input@ == candidate_of(mid) && call_ensures(harness, (&input,), report) && to
                == stepped(mid, report);
        law_step_keeps_sound(mid, report);
    }
}

/// At most one record for one content: over any number of iterations, no
/// two crash records of a session hold the same bytes.
pub proof fn law_one_record_per_content<H: Fn(&Vec<u8>) -> HarnessReport>(
    harness: H,
    from: Session,
    to: Session,
    steps: nat,
    i: int,
    j: int,
)
    requires
        sound(from),
        reaches(harness, from, to, steps),
        0 <= i < to.crashes.len(),
        0 <= j < to.crashes.len(),
        i != j,
    ensures
        to.crashes[i].input != to.crashes[j].input,
        to.crashes[i].key != to.crashes[j].key,
{
    law_session_stays_sound(harness, from, to, steps);
    lemma_no_duplicate_content(to.crashes, i, j);
}

/// A candidate that meets the objective twice is recorded once: the second
/// judgment leaves the crash records as the first left them.
pub proof fn law_same_crash_recorded_once(
    s: Session,
    candidate: Seq<u8>,
    first: Seq<u8>,
    second: Seq<u8>,
)
    ensures
        evaluated(
            evaluated(s, candidate, RunOutcome::Crashed, first),
            candidate,
            RunOutcome::Crashed,
            second,
        ).crashes == evaluated(s, candidate, RunOutcome::Crashed, first).crashes,
{
    crate::crashes::lemma_recorded_twice(s.crashes, candidate);
}

/// A run over its time budget is timed out and not crashed, whatever it
/// signalled; where timeouts do not count as objective, judging it adds no
/// crash record.
pub proof fn law_timeout_is_no_crash(
    s: Session,
    candidate: Seq<u8>,
    signal: Signal,
    elapsed_ms: u64,
    snapshot: Seq<u8>,
)
    requires
        elapsed_ms > s.config.timeout_ms,
    ensures
        outcome_of(signal, elapsed_ms, s.config.timeout_ms) == RunOutcome::TimedOut,
        !s.config.timeout_is_objective ==> evaluated(
            s,
            candidate,
            outcome_of(signal, elapsed_ms, s.config.timeout_ms),
            snapshot,
        ).crashes == s.crashes,
{
}

/// A run that returns in time without touching the signal area changes
/// neither the corpus nor the crash records nor the coverage union.
pub proof fn law_silent_run_keeps_store(s: Session, report: HarnessReport)
    requires
        report.trace@.len() == 0,
        report.signal == Signal::Returned,
        report.elapsed_ms <= s.config.timeout_ms,
    ensures
        stepped(s, report).corpus == s.corpus,
        stepped(s, report).crashes == s.crashes,
        stepped(s, report).history == s.history,
{
    lemma_cleared_adds_nothing(s.history, s.config.map_size as nat);
}

/// With a harness that always returns in time and never touches the signal
/// area, a session keeps the corpus, the crash records and the coverage
/// union it started with, however long it runs.
pub proof fn law_silent_harness_keeps_store<H: Fn(&Vec<u8>) -> HarnessReport>(
    harness: H,
    from: Session,
    to: Session,
    steps: nat,
)
    requires
        reaches(harness, from, to, steps),
        forall|input: Vec<u8>, report: HarnessReport| #[trigger]
            call_ensures(harness, (&input,), report) ==> report.trace@.len() == 0 && report.signal
                == Signal::Returned && report.elapsed_ms <= from.config.timeout_ms,
    ensures
        to.corpus == from.corpus,
        to.crashes == from.crashes,
        to.history == from.history,
        to.config == from.config,
    decreases steps,
{
    if steps > 0 {
        let mid = choose|mid: Session|
            reaches(harness, from, mid, (steps - 1) as nat) && step_of(harness, mid, to);
        law_silent_harness_keeps_store(harness, from, mid, (steps - 1) as nat);
        let (input, report) = choose|input: Vec<u8>, report: HarnessReport|
            input@ == candidate_of(mid) && call_ensures(harness, (&input,), report) && to
                == stepped(mid, report);
        law_silent_run_keeps_store(mid, report);
    }
}

} // verus!
