//! The coverage observer: the signal area that a harness fills during one
//! run, cleared before the run and read after it.

use vstd::prelude::*;
use vstd::arithmetic::power2::is_pow2;
use crate::error::ConfigFault;
use crate::error::FuzzError;

verus! {

/// A signal area of `size` counters, all zero.
pub open spec fn zeroed(size: nat) -> Seq<u8> {
    Seq::new(size, |i: int| 0u8)
}

/// A counter after one more hit: it counts up to 255 and stays there.
pub open spec fn bumped(counter: u8) -> u8 {
    if counter < 255 {
        (counter + 1) as u8
    } else {
        counter
    }
}

/// The counter that the location `location` falls on in a signal area of
/// `size` counters: locations wrap around the area.
pub open spec fn slot_of(location: usize, size: nat) -> int {
    location as int % size as int
}

/// The signal area after the location `location` was touched once. An area
/// without counters records nothing.
pub open spec fn touched(map: Seq<u8>, location: usize) -> Seq<u8> {
    if map.len() == 0 {
        map
    } else {
        map.update(slot_of(location, map.len()), bumped(map[slot_of(location, map.len())]))
    }
}

/// The signal area after every location of `trace` was touched, in order.
pub open spec fn replayed(map: Seq<u8>, trace: Seq<usize>) -> Seq<u8>
    decreases trace.len(),
{
    if trace.len() == 0 {
        map
    } else {
        touched(replayed(map, trace.drop_last()), trace.last())
    }
}

/// Replaying a trace keeps the signal area's size.
pub proof fn lemma_replayed_len(map: Seq<u8>, trace: Seq<usize>)
    ensures
        replayed(map, trace).len() == map.len(),
    decreases trace.len(),
{
    if trace.len() > 0 {
        lemma_replayed_len(map, trace.drop_last());
    }
}

/// Decides whether `size` is a power of two.
pub fn is_power_of_two(size: usize) -> (yes: bool)
    ensures
        yes == is_pow2(size as int),
{
    if size == 0 {
        proof {
            reveal(is_pow2);
        }
        return false;
    }
    let mut rest: usize = size;
    while rest % 2 == 0
        invariant
            rest > 0,
            is_pow2(rest as int) == is_pow2(size as int),
        decreases rest,
    {
        proof {
            reveal(is_pow2);
        }
        rest = rest / 2;
    }
    proof {
        reveal(is_pow2);
    }
    rest == 1
}

/// The signal area of one fuzzing session.
pub struct CoverageObserver {
    map: Vec<u8>,
}

impl CoverageObserver {
    /// The counters, by location.
    pub closed spec fn view(&self) -> Seq<u8> {
        self.map@
    }

    /// The number of counters is a power of two.
    #[verifier::type_invariant]
    spec fn well_formed(&self) -> bool {
        is_pow2(self.map@.len() as int)
    }

    /// Makes a cleared signal area of `size` counters. A size that is not a
    /// power of two is a configuration error.
    pub fn new(size: usize) -> (made: Result<CoverageObserver, FuzzError>)
        ensures
            is_pow2(size as int) ==> made is Ok && made->Ok_0@ == zeroed(size as nat),
            !is_pow2(size as int) ==> made == Err::<CoverageObserver, FuzzError>(
                FuzzError::ConfigurationError(ConfigFault::MapSize),
            ),
    {
        if !is_power_of_two(size) {
            return Err(FuzzError::ConfigurationError(ConfigFault::MapSize));
        }
        let mut map: Vec<u8> = Vec::new();
        let mut filled: usize = 0;
        while filled < size
            invariant
                filled <= size,
                map@ == zeroed(filled as nat),
            decreases size - filled,
        {
            map.push(0u8);
            filled = filled + 1;
            assert(map@ =~= zeroed(filled as nat));
        }
        Ok(CoverageObserver { map })
    }

    /// The number of counters.
    pub fn size(&self) -> (size: usize)
        ensures
            size == self@.len(),
            is_pow2(size as int),
    {
        proof {
            use_type_invariant(self);
        }
        self.map.len()
    }

    /// Clears the signal area.
    pub fn reset(&mut self)
        ensures
            final(self)@ == zeroed(old(self)@.len()),
    {
        proof {
            use_type_invariant(&*self);
        }
        let size: usize = self.map.len();
        let mut at: usize = 0;
        while at < size
            invariant
                at <= size,
                self.map@.len() == size,
                is_pow2(size as int),
                forall|i: int| 0 <= i < at ==> self.map@[i] == 0u8,
            decreases size - at,
        {
            self.map[at] = 0u8;
            at = at + 1;
        }
        assert(self.map@ =~= zeroed(size as nat));
    }

    /// Counts one hit of the location `location`.
    pub fn record(&mut self, location: usize)
        ensures
            final(self)@ == touched(old(self)@, location),
    {
        proof {
            use_type_invariant(&*self);
            reveal(is_pow2);
        }
        let size: usize = self.map.len();
        let slot: usize = location % size;
        let counter: u8 = self.map[slot];
        if counter < 255 {
            self.map[slot] = counter + 1;
        }
        assert(self.map@ =~= touched(old(self)@, location));
    }

    /// Counts one hit of every location of `trace`, in order.
    pub fn record_all(&mut self, trace: &Vec<usize>)
        ensures
            final(self)@ == replayed(old(self)@, trace@),
    {
        let mut done: usize = 0;
        while done < trace.len()
            invariant
                done <= trace.len(),
                self@ == replayed(old(self)@, trace@.take(done as int)),
            decreases trace.len() - done,
        {
            self.record(trace[done]);
            proof {
                let next = trace@.take(done + 1);
                assert(next.drop_last() =~= trace@.take(done as int));
                assert(next.last() == trace@[done as int]);
            }
            done = done + 1;
        }
        assert(trace@.take(done as int) =~= trace@);
    }

    /// A copy of the signal area as it stands.
    pub fn snapshot(&self) -> (copy: Vec<u8>)
        ensures
            copy@ == self@,
    {
        self.map.clone()
    }
}

} // verus!
