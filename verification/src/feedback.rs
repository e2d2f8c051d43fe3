//! The coverage feedback: the union of all coverage accepted so far, and the
//! judgment whether a snapshot adds to it.

use vstd::prelude::*;
use crate::observer::zeroed;

verus! {

/// Whether `snapshot` adds to `history`: both cover the same locations, and
/// at one location at least the snapshot counts more than the history has
/// seen. A snapshot of another size adds nothing.
pub open spec fn novel(history: Seq<u8>, snapshot: Seq<u8>) -> bool {
    snapshot.len() == history.len() && exists|i: int|
        0 <= i < history.len() && #[trigger] snapshot[i] > history[i]
}

/// Whether the first `upto` locations of `snapshot` add to `history`.
spec fn novel_below(history: Seq<u8>, snapshot: Seq<u8>, upto: int) -> bool {
    exists|i: int| 0 <= i < upto && #[trigger] snapshot[i] > history[i]
}

/// The larger of two counters.
pub open spec fn larger(a: u8, b: u8) -> u8 {
    if a >= b {
        a
    } else {
        b
    }
}

/// The union of `history` and `snapshot`: at each location the larger count.
/// A snapshot of another size leaves the history as it is.
pub open spec fn merged(history: Seq<u8>, snapshot: Seq<u8>) -> Seq<u8> {
    if snapshot.len() == history.len() {
        Seq::new(history.len(), |i: int| larger(history[i], snapshot[i]))
    } else {
        history
    }
}

/// A location is covered once its count is above zero.
pub open spec fn covered(history: Seq<u8>, location: int) -> bool {
    0 <= location < history.len() && history[location] > 0
}

/// `later` has lost nothing that `earlier` had: the same locations, and at
/// each of them a count that is no lower.
pub open spec fn extends(later: Seq<u8>, earlier: Seq<u8>) -> bool {
    later.len() == earlier.len() && forall|i: int|
        0 <= i < earlier.len() ==> #[trigger] later[i] >= earlier[i]
}

/// The union never loses coverage: it extends the history it was made from.
pub proof fn lemma_merged_extends(history: Seq<u8>, snapshot: Seq<u8>)
    ensures
        extends(merged(history, snapshot), history),
{
}

/// A snapshot that adds nothing leaves the union as it was.
pub proof fn lemma_merged_without_novelty(history: Seq<u8>, snapshot: Seq<u8>)
    requires
        !novel(history, snapshot),
    ensures
        merged(history, snapshot) == history,
{
    if snapshot.len() == history.len() {
        assert forall|i: int| 0 <= i < history.len() implies larger(history[i], snapshot[i])
            == history[i] by {
            if snapshot[i] > history[i] {
                assert(novel(history, snapshot));
            }
        }
        assert(merged(history, snapshot) =~= history);
    }
}

/// A cleared signal area adds nothing to any history.
pub proof fn lemma_cleared_adds_nothing(history: Seq<u8>, size: nat)
    ensures
        !novel(history, zeroed(size)),
        merged(history, zeroed(size)) == history,
{
    lemma_merged_without_novelty(history, zeroed(size));
}

/// Once a location is covered, it stays covered in every later union.
pub proof fn law_covered_stays_covered(earlier: Seq<u8>, later: Seq<u8>, location: int)
    requires
        extends(later, earlier),
        covered(earlier, location),
    ensures
        covered(later, location),
{
}

/// Extending is transitive.
pub proof fn lemma_extends_chain(first: Seq<u8>, second: Seq<u8>, third: Seq<u8>)
    requires
        extends(second, first),
        extends(third, second),
    ensures
        extends(third, first),
{
    assert forall|i: int| 0 <= i < first.len() implies #[trigger] third[i] >= first[i] by {
        assert(second[i] >= first[i]);
        assert(third[i] >= second[i]);
    }
}

/// The union of all coverage that the session has accepted.
pub struct CoverageHistory {
    seen: Vec<u8>,
}

impl CoverageHistory {
    /// The highest count accepted so far, by location.
    pub closed spec fn view(&self) -> Seq<u8> {
        self.seen@
    }

    /// Makes the history of a session that has accepted nothing yet, over
    /// `size` locations.
    pub fn new(size: usize) -> (history: CoverageHistory)
        ensures
            history@ == zeroed(size as nat),
    {
        let mut seen: Vec<u8> = Vec::new();
        let mut filled: usize = 0;
        while filled < size
            invariant
                filled <= size,
                seen@ == zeroed(filled as nat),
            decreases size - filled,
        {
            seen.push(0u8);
            filled = filled + 1;
            assert(seen@ =~= zeroed(filled as nat));
        }
        CoverageHistory { seen }
    }

    /// The number of locations.
    pub fn size(&self) -> (size: usize)
        ensures
            size == self@.len(),
    {
        self.seen.len()
    }

    /// The highest count accepted so far at `location`, if there is such a
    /// location.
    pub fn count_at(&self, location: usize) -> (count: Option<u8>)
        ensures
            location < self@.len() ==> count == Some(self@[location as int]),
            location >= self@.len() ==> count is None,
    {
        if location < self.seen.len() {
            Some(self.seen[location])
        } else {
            None
        }
    }

    /// Judges whether `snapshot` adds to the history, and leaves the history
    /// as it is.
    pub fn is_interesting(&self, snapshot: &Vec<u8>) -> (interesting: bool)
        ensures
            interesting == novel(self@, snapshot@),
    {
        if snapshot.len() != self.seen.len() {
            return false;
        }
        let mut at: usize = 0;
        while at < snapshot.len()
            invariant
                at <= snapshot.len(),
                snapshot@.len() == self.seen@.len(),
                !novel_below(self.seen@, snapshot@, at as int),
            decreases snapshot.len() - at,
        {
            if snapshot[at] > self.seen[at] {
                return true;
            }
            at = at + 1;
        }
        false
    }

    /// Judges whether `snapshot` adds to the history and, in the same step,
    /// takes it into the union if it does.
    pub fn absorb(&mut self, snapshot: &Vec<u8>) -> (interesting: bool)
        ensures
            interesting == novel(old(self)@, snapshot@),
            final(self)@ == merged(old(self)@, snapshot@),
            extends(final(self)@, old(self)@),
    {
        if snapshot.len() != self.seen.len() {
            return false;
        }
        let mut interesting: bool = false;
        let mut at: usize = 0;
        while at < snapshot.len()
            invariant
                at <= snapshot.len(),
                snapshot@.len() == self.seen@.len(),
                self.seen@.len() == old(self).seen@.len(),
                interesting == novel_below(old(self).seen@, snapshot@, at as int),
                forall|i: int|
                    0 <= i < at ==> self.seen@[i] == larger(old(self).seen@[i], snapshot@[i]),
                forall|i: int| at <= i < self.seen@.len() ==> self.seen@[i] == old(self).seen@[i],
            decreases snapshot.len() - at,
        {
            if snapshot[at] > self.seen[at] {
                self.seen[at] = snapshot[at];
                interesting = true;
            }
            at = at + 1;
        }
        assert(self.seen@ =~= merged(old(self)@, snapshot@));
        interesting
    }
}

} // verus!
