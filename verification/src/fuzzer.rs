//! The fuzzer loop: produce a candidate, run it, judge the run, and keep
//! what the judgment says to keep.

use vstd::prelude::*;
use crate::config::Config;
use crate::corpus::CorpusStore;
use crate::corpus::EntryView;
use crate::crashes::has_key;
use crate::crashes::content_hash;
use crate::crashes::keyed_once;
use crate::crashes::recorded;
use crate::crashes::CrashStore;
use crate::crashes::CrashView;
use crate::error::FuzzError;
use crate::executor::coverage_of;
use crate::executor::execute;
use crate::executor::verdict_of;
use crate::feedback::merged;
use crate::feedback::novel;
use crate::feedback::CoverageHistory;
use crate::generator::generate;
use crate::generator::generated;
use crate::mutator::mutated;
use crate::mutator::MutationEngine;
use crate::observer::zeroed;
use crate::observer::CoverageObserver;
use crate::outcome::is_objective;
use crate::outcome::objective_met;
use crate::outcome::HarnessReport;
use crate::outcome::RunOutcome;
use crate::random::nth_seed;
use crate::random::seed_after;
use crate::random::SeedSequence;

verus! {

/// The state of a session as the contracts see it.
pub struct Session {
    /// The settings the session runs with.
    pub config: Config,
    /// The seed of the next random choice.
    pub seed: u64,
    /// The signal area as the last run left it.
    pub signal: Seq<u8>,
    /// The union of all coverage accepted so far.
    pub history: Seq<u8>,
    /// The corpus, oldest entry first.
    pub corpus: Seq<EntryView>,
    /// The crash records, oldest first.
    pub crashes: Seq<CrashView>,
    /// The place of the corpus entry that is picked next.
    pub cursor: int,
    /// The number of runs so far.
    pub executions: u64,
}

/// What the engine concluded from one run.
#[derive(Clone, Copy, Debug)]
pub struct Verdict {
    /// How the run ended.
    pub outcome: RunOutcome,
    /// Whether the run reached new coverage, so that its input was kept.
    pub interesting: bool,
    /// Whether the run satisfied the objective.
    pub objective: bool,
    /// The key of the crash record that was added, if one was.
    pub recorded: Option<u64>,
}

/// The figures that a session reports.
#[derive(Clone, Copy, Debug)]
pub struct Stats {
    /// The number of runs so far.
    pub executions: u64,
    /// The number of corpus entries.
    pub corpus_size: usize,
    /// The number of crash records.
    pub crashes: usize,
}

/// The runs per second of a session that made `executions` runs in
/// `elapsed_ms` milliseconds, rounded down: zero while no time has passed,
/// and never above the largest number a counter holds.
pub open spec fn rate_of(executions: u64, elapsed_ms: u64) -> u64 {
    if elapsed_ms == 0 {
        0
    } else if executions * 1000 / (elapsed_ms as int) > u64::MAX {
        u64::MAX
    } else {
        (executions * 1000 / (elapsed_ms as int)) as u64
    }
}

impl Stats {
    /// The runs per second so far, for a session that has been running for
    /// `elapsed_ms` milliseconds.
    pub fn per_second(&self, elapsed_ms: u64) -> (rate: u64)
        ensures
            rate == rate_of(self.executions, elapsed_ms),
    {
        if elapsed_ms == 0 {
            return 0;
        }
        let runs: u128 = self.executions as u128;
        let scaled: u128 = runs * 1000;
        let rate: u128 = scaled / (elapsed_ms as u128);
        if rate > u64::MAX as u128 {
            u64::MAX
        } else {
            rate as u64
        }
    }
}

/// The state in which a session with the settings `config` and the session
/// seed `seed` starts.
pub open spec fn start(config: Config, seed: u64) -> Session {
    Session {
        config,
        seed,
        signal: zeroed(config.map_size as nat),
        history: zeroed(config.map_size as nat),
        corpus: Seq::<EntryView>::empty(),
        crashes: Seq::<CrashView>::empty(),
        cursor: 0,
        executions: 0,
    }
}

/// The states that a session can be in.
pub open spec fn sound(s: Session) -> bool {
    &&& s.config.valid()
    &&& s.signal.len() == s.config.map_size
    &&& s.history.len() == s.config.map_size
    &&& keyed_once(s.crashes)
    &&& 0 <= s.cursor
    &&& (s.cursor < s.corpus.len() || s.cursor == 0)
}

/// The input that the next candidate is derived from: the corpus entry
/// under the cursor, or a freshly generated input while the corpus is
/// empty.
pub open spec fn base_of(s: Session) -> Seq<u8> {
    if s.corpus.len() == 0 {
        generated(s.seed, s.config.seed_len)
    } else {
        s.corpus[s.cursor].input
    }
}

/// The seed of the first mutation of the next candidate: generating a base
/// input takes one seed, picking one from the corpus takes none.
pub open spec fn mutation_seed(s: Session) -> u64 {
    if s.corpus.len() == 0 {
        seed_after(s.seed)
    } else {
        s.seed
    }
}

/// What `times` mutations in a row make of `input`, the first with the seed
/// `seed` and each further one with the seed after.
pub open spec fn mutated_times(seed: u64, stack_pow: usize, input: Seq<u8>, times: nat) -> Seq<u8>
    decreases times,
{
    if times == 0 {
        input
    } else {
        mutated(
            nth_seed(seed, (times - 1) as nat),
            stack_pow,
            mutated_times(seed, stack_pow, input, (times - 1) as nat),
        )
    }
}

/// The next candidate of a session.
pub open spec fn candidate_of(s: Session) -> Seq<u8> {
    mutated_times(
        mutation_seed(s),
        s.config.stack_pow,
        base_of(s),
        s.config.mutations_per_seed as nat,
    )
}

/// The cursor after one pick: one entry further, and back at the oldest
/// entry after the newest.
pub open spec fn cursor_after(s: Session) -> int {
    if s.corpus.len() == 0 || s.cursor + 1 >= s.corpus.len() {
        0
    } else {
        s.cursor + 1
    }
}

/// The state after the next candidate was produced.
pub open spec fn produced(s: Session) -> Session {
    Session {
        seed: nth_seed(mutation_seed(s), s.config.mutations_per_seed as nat),
        cursor: cursor_after(s),
        ..s
    }
}

/// A run counter after one more run: it stops at its largest value.
pub open spec fn counted(executions: u64) -> u64 {
    if executions < u64::MAX {
        (executions + 1) as u64
    } else {
        executions
    }
}

/// The state after the run of `candidate`, which ended as `outcome` and left
/// `snapshot` behind, was judged. The two judgments are independent: the
/// candidate joins the corpus where the snapshot adds to the coverage union,
/// and it is recorded as a crash where the outcome satisfies the objective.
pub open spec fn evaluated(
    s: Session,
    candidate: Seq<u8>,
    outcome: RunOutcome,
    snapshot: Seq<u8>,
) -> Session {
    Session {
        history: merged(s.history, snapshot),
        corpus: if novel(s.history, snapshot) {
            s.corpus.push(EntryView { input: candidate, signature: snapshot })
        } else {
            s.corpus
        },
        crashes: if is_objective(outcome, s.config.timeout_is_objective) {
            recorded(s.crashes, candidate)
        } else {
            s.crashes
        },
        executions: counted(s.executions),
        ..s
    }
}

/// The verdict on the run of `candidate` in the state `s`.
pub open spec fn verdict_on(
    s: Session,
    candidate: Seq<u8>,
    outcome: RunOutcome,
    snapshot: Seq<u8>,
) -> Verdict {
    Verdict {
        outcome,
        interesting: novel(s.history, snapshot),
        objective: is_objective(outcome, s.config.timeout_is_objective),
        recorded: if is_objective(outcome, s.config.timeout_is_objective) && !has_key(
            s.crashes,
            content_hash(candidate),
        ) {
            Some(content_hash(candidate))
        } else {
            None
        },
    }
}

/// The state after one whole iteration in which the harness handed back
/// `report` for the candidate.
pub open spec fn stepped(s: Session, report: HarnessReport) -> Session {
    evaluated(
        Session { signal: coverage_of(s.config.map_size as nat, report), ..produced(s) },
        candidate_of(s),
        verdict_of(report, s.config.timeout_ms),
        coverage_of(s.config.map_size as nat, report),
    )
}

/// The verdict of one whole iteration in which the harness handed back
/// `report` for the candidate.
pub open spec fn step_verdict(s: Session, report: HarnessReport) -> Verdict {
    verdict_on(
        produced(s),
        candidate_of(s),
        verdict_of(report, s.config.timeout_ms),
        coverage_of(s.config.map_size as nat, report),
    )
}

/// Whether one iteration with `harness` can lead from `before` to `after`:
/// the harness can hand back a report for the candidate that steps the one
/// state to the other.
pub open spec fn step_of<H: Fn(&Vec<u8>) -> HarnessReport>(
    harness: H,
    before: Session,
    after: Session,
) -> bool {
    exists|input: Vec<u8>, report: HarnessReport|
        input@ == candidate_of(before) && call_ensures(harness, (&input,), report) && after
            == stepped(before, report)
}

/// Whether `steps` iterations with `harness` can lead from `from` to `to`.
pub open spec fn reaches<H: Fn(&Vec<u8>) -> HarnessReport>(
    harness: H,
    from: Session,
    to: Session,
    steps: nat,
) -> bool
    decreases steps,
{
    if steps == 0 {
        to == from
    } else {
        exists|mid: Session|
            reaches(harness, from, mid, (steps - 1) as nat) && step_of(harness, mid, to)
    }
}

/// The figures of a session in the state `s`.
pub open spec fn stats_of(s: Session) -> Stats {
    Stats {
        executions: s.executions,
        corpus_size: s.corpus.len() as usize,
        crashes: s.crashes.len() as usize,
    }
}

/// Whether one iteration with `harness` can lead from `before` to `after`
/// and be followed by the answer `go_on` of `monitor`, which is shown the
/// figures after the iteration and the iteration's verdict.
pub open spec fn watched_step<H: Fn(&Vec<u8>) -> HarnessReport, M: Fn(Stats, Verdict) -> bool>(
    harness: H,
    monitor: M,
    before: Session,
    after: Session,
    go_on: bool,
) -> bool {
    exists|input: Vec<u8>, report: HarnessReport|
        input@ == candidate_of(before) && call_ensures(harness, (&input,), report) && after
            == stepped(before, report) && call_ensures(
            monitor,
            (stats_of(after), step_verdict(before, report)),
            go_on,
        )
}

/// Whether `steps` iterations with `harness` can lead from `from` to `to`
/// with `monitor` asking for more after each of them.
pub open spec fn watched<H: Fn(&Vec<u8>) -> HarnessReport, M: Fn(Stats, Verdict) -> bool>(
    harness: H,
    monitor: M,
    from: Session,
    to: Session,
    steps: nat,
) -> bool
    decreases steps,
{
    if steps == 0 {
        to == from
    } else {
        exists|mid: Session|
            watched(harness, monitor, from, mid, (steps - 1) as nat) && watched_step(
                harness,
                monitor,
                mid,
                to,
                true,
            )
    }
}

/// Whether `steps` iterations with `harness` can lead from `from` to `to`
/// with `monitor` asking for more after each of them but the last, and for
/// a halt after the last.
pub open spec fn halted<H: Fn(&Vec<u8>) -> HarnessReport, M: Fn(Stats, Verdict) -> bool>(
    harness: H,
    monitor: M,
    from: Session,
    to: Session,
    steps: nat,
) -> bool {
    steps > 0 && exists|mid: Session|
        watched(harness, monitor, from, mid, (steps - 1) as nat) && watched_step(
            harness,
            monitor,
            mid,
            to,
            false,
        )
}

/// The engine of one session, with everything the session owns.
pub struct Fuzzer {
    config: Config,
    engine: MutationEngine,
    seeds: SeedSequence,
    observer: CoverageObserver,
    history: CoverageHistory,
    corpus: CorpusStore,
    crashes: CrashStore,
    cursor: usize,
    executions: u64,
}

impl Fuzzer {
    /// The state of the session.
    pub closed spec fn view(&self) -> Session {
        Session {
            config: self.config,
            seed: self.seeds@,
            signal: self.observer@,
            history: self.history@,
            corpus: self.corpus@,
            crashes: self.crashes@,
            cursor: self.cursor as int,
            executions: self.executions,
        }
    }

    /// The session is in a state it can be in, and its parts agree with its
    /// settings.
    pub closed spec fn well_formed(&self) -> bool {
        &&& sound(self@)
        &&& self.engine@ == self.config.stack_pow
        &&& self.corpus.well_formed()
        &&& self.crashes.well_formed()
    }

    /// Starts a session. Settings that are not valid are a configuration
    /// error, which names the first setting at fault.
    pub fn new(config: Config, seed: u64) -> (made: Result<Fuzzer, FuzzError>)
        ensures
            config.valid() ==> made is Ok && made->Ok_0@ == start(config, seed)
                && made->Ok_0.well_formed(),
            config.fault() matches Some(fault) ==> made is Err && made->Err_0
                == FuzzError::ConfigurationError(fault),
    {
        match config.validate() {
            Err(error) => {
                return Err(error);
            },
            Ok(_) => {},
        }
        let engine: MutationEngine = match MutationEngine::new(config.stack_pow) {
            Ok(engine) => engine,
            Err(error) => {
                return Err(error);
            },
        };
        let observer: CoverageObserver = match CoverageObserver::new(config.map_size) {
            Ok(observer) => observer,
            Err(error) => {
                return Err(error);
            },
        };
        let fuzzer = Fuzzer {
            config,
            engine,
            seeds: SeedSequence::new(seed),
            observer,
            history: CoverageHistory::new(config.map_size),
            corpus: CorpusStore::new(),
            crashes: CrashStore::new(),
            cursor: 0,
            executions: 0,
        };
        Ok(fuzzer)
    }

    /// Select and produce: picks the corpus entry under the cursor, or
    /// generates a fresh input while the corpus is empty, and mutates it as
    /// often as the settings say. The corpus is left as it is.
    pub fn produce(&mut self) -> (candidate: Vec<u8>)
        requires
            old(self).well_formed(),
        ensures
            candidate@ == candidate_of(old(self)@),
            final(self)@ == produced(old(self)@),
            final(self).well_formed(),
    {
        let mut candidate: Vec<u8> = match self.corpus.input(self.cursor) {
            Some(input) => input,
            None => generate(&mut self.seeds, self.config.seed_len),
        };
        if self.corpus.len() != 0 {
            self.cursor = if self.cursor + 1 >= self.corpus.len() {
                0
            } else {
                self.cursor + 1
            };
        }
        let ghost first = mutation_seed(old(self)@);
        let ghost base = candidate@;
        let rounds: usize = self.config.mutations_per_seed;
        let mut done: usize = 0;
        while done < rounds
            invariant
                done <= rounds,
                rounds == self.config.mutations_per_seed,
                self.config == old(self).config,
                self.engine@ == self.config.stack_pow,
                self.seeds@ == nth_seed(first, done as nat),
                candidate@ == mutated_times(first, self.config.stack_pow, base, done as nat),
                self.observer == old(self).observer,
                self.history == old(self).history,
                self.corpus == old(self).corpus,
                self.crashes == old(self).crashes,
                self.cursor == cursor_after(old(self)@),
                self.executions == old(self).executions,
            decreases rounds - done,
        {
            candidate = self.engine.mutate(&mut self.seeds, &candidate);
            done = done + 1;
        }
        candidate
    }

    /// Evaluate: judges the run of `candidate`, which ended as `outcome` and
    /// left `snapshot` behind. In one step the snapshot is held against the
    /// coverage union and, where it adds to it, taken into the union while
    /// the candidate joins the corpus. Where the outcome satisfies the
    /// objective, the candidate is recorded under its content key, unless a
    /// record with that key is there already.
    pub fn evaluate(
        &mut self,
        candidate: Vec<u8>,
        outcome: RunOutcome,
        snapshot: &Vec<u8>,
    ) -> (verdict: Verdict)
        requires
            old(self).well_formed(),
        ensures
            final(self)@ == evaluated(old(self)@, candidate@, outcome, snapshot@),
            verdict == verdict_on(old(self)@, candidate@, outcome, snapshot@),
            final(self).well_formed(),
    {
        if self.executions < u64::MAX {
            self.executions = self.executions + 1;
        }
        let objective: bool = objective_met(outcome, self.config.timeout_is_objective);
        let recorded: Option<u64> = if objective {
            self.crashes.record(&candidate)
        } else {
            None
        };
        let interesting: bool = self.history.absorb(snapshot);
        if interesting {
            self.corpus.add(candidate, snapshot.clone());
        }
        Verdict { outcome, interesting, objective, recorded }
    }

    /// One whole iteration: produces a candidate, runs `harness` on it and
    /// evaluates the run.
    pub fn fuzz_one<H: Fn(&Vec<u8>) -> HarnessReport>(&mut self, harness: &H) -> (verdict: Verdict)
        requires
            old(self).well_formed(),
            forall|input: Vec<u8>| call_requires(*harness, (&input,)),
        ensures
            exists|input: Vec<u8>, report: HarnessReport|
                input@ == candidate_of(old(self)@) && call_ensures(*harness, (&input,), report)
                    && final(self)@ == stepped(old(self)@, report) && verdict == step_verdict(
                    old(self)@,
                    report,
                ),
            final(self).well_formed(),
    {
        let candidate: Vec<u8> = self.produce();
        let (outcome, snapshot) = execute(
            &mut self.observer,
            harness,
            &candidate,
            self.config.timeout_ms,
        );
        self.evaluate(candidate, outcome, &snapshot)
    }

    /// The fuzzer loop: runs whole iterations, one after the other, and
    /// shows `monitor` the session's figures and the verdict after each. It
    /// ends when `monitor` answers `false` or after `budget` iterations,
    /// and returns the number of iterations it ran.
    pub fn fuzz_loop<H: Fn(&Vec<u8>) -> HarnessReport, M: Fn(Stats, Verdict) -> bool>(
        &mut self,
        harness: &H,
        monitor: &M,
        budget: u64,
    ) -> (ran: u64)
        requires
            old(self).well_formed(),
            forall|input: Vec<u8>| call_requires(*harness, (&input,)),
            forall|stats: Stats, verdict: Verdict| call_requires(*monitor, (stats, verdict)),
        ensures
            ran <= budget,
            watched(*harness, *monitor, old(self)@, final(self)@, ran as nat) || halted(
                *harness,
                *monitor,
                old(self)@,
                final(self)@,
                ran as nat,
            ),
            ran < budget ==> halted(*harness, *monitor, old(self)@, final(self)@, ran as nat),
            final(self).well_formed(),
    {
        let mut ran: u64 = 0;
        let mut go_on: bool = true;
        while go_on && ran < budget
            invariant
                ran <= budget,
                self.well_formed(),
                forall|input: Vec<u8>| call_requires(*harness, (&input,)),
                forall|stats: Stats, verdict: Verdict| call_requires(*monitor, (stats, verdict)),
                go_on ==> watched(*harness, *monitor, old(self)@, self@, ran as nat),
                !go_on ==> halted(*harness, *monitor, old(self)@, self@, ran as nat),
            decreases (if go_on { 1nat } else { 0nat }), budget - ran,
        {
            let ghost before = self@;
            let verdict: Verdict = self.fuzz_one(harness);
            let stats: Stats = self.stats();
            assert(stats == stats_of(self@));
            go_on = monitor(stats, verdict);
            assert(watched_step(*harness, *monitor, before, self@, go_on));
            ran = ran + 1;
        }
        ran
    }

    /// Runs `iterations` whole iterations, one after the other, and returns
    /// the figures of the session after the last.
    pub fn fuzz_loop_for<H: Fn(&Vec<u8>) -> HarnessReport>(
        &mut self,
        harness: &H,
        iterations: u64,
    ) -> (stats: Stats)
        requires
            old(self).well_formed(),
            forall|input: Vec<u8>| call_requires(*harness, (&input,)),
        ensures
            reaches(*harness, old(self)@, final(self)@, iterations as nat),
            final(self).well_formed(),
            stats == stats_of(final(self)@),
    {
        let mut done: u64 = 0;
        while done < iterations
            invariant
                done <= iterations,
                self.well_formed(),
                forall|input: Vec<u8>| call_requires(*harness, (&input,)),
                reaches(*harness, old(self)@, self@, done as nat),
            decreases iterations - done,
        {
            let ghost before = self@;
            self.fuzz_one(harness);
            assert(step_of(*harness, before, self@));
            done = done + 1;
        }
        self.stats()
    }

    /// The settings of the session.
    pub fn config(&self) -> (config: Config)
        ensures
            config == self@.config,
    {
        self.config
    }

    /// The number of runs so far.
    pub fn executions(&self) -> (count: u64)
        ensures
            count == self@.executions,
    {
        self.executions
    }

    /// The number of corpus entries.
    pub fn corpus_len(&self) -> (count: usize)
        requires
            self.well_formed(),
        ensures
            count == self@.corpus.len(),
    {
        self.corpus.len()
    }

    /// A copy of the input of the corpus entry at `index`, if there is one.
    pub fn corpus_input(&self, index: usize) -> (input: Option<Vec<u8>>)
        requires
            self.well_formed(),
        ensures
            index < self@.corpus.len() ==> input is Some && input->Some_0@
                == self@.corpus[index as int].input,
            index >= self@.corpus.len() ==> input is None,
    {
        self.corpus.input(index)
    }

    /// The number of crash records.
    pub fn crash_count(&self) -> (count: usize)
        ensures
            count == self@.crashes.len(),
    {
        self.crashes.len()
    }

    /// The content key of the crash record at `index`, if there is one.
    pub fn crash_key(&self, index: usize) -> (key: Option<u64>)
        ensures
            index < self@.crashes.len() ==> key == Some(self@.crashes[index as int].key),
            index >= self@.crashes.len() ==> key is None,
    {
        self.crashes.key_at(index)
    }

    /// A copy of the input of the crash record at `index`, if there is one.
    pub fn crash_input(&self, index: usize) -> (input: Option<Vec<u8>>)
        ensures
            index < self@.crashes.len() ==> input is Some && input->Some_0@
                == self@.crashes[index as int].input,
            index >= self@.crashes.len() ==> input is None,
    {
        self.crashes.input_at(index)
    }

    /// The highest count that the coverage union holds at `location`, if
    /// the map has such a location.
    pub fn coverage_at(&self, location: usize) -> (count: Option<u8>)
        ensures
            location < self@.history.len() ==> count == Some(self@.history[location as int]),
            location >= self@.history.len() ==> count is None,
    {
        self.history.count_at(location)
    }

    /// The figures of the session as it stands.
    pub fn stats(&self) -> (stats: Stats)
        requires
            self.well_formed(),
        ensures
            stats == stats_of(self@),
    {
        Stats {
            executions: self.executions,
            corpus_size: self.corpus.len(),
            crashes: self.crashes.len(),
        }
    }
}

} // verus!
