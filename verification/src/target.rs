//! The sample target: a harness that fails on every input that starts with
//! the three bytes `abc`.

use vstd::prelude::*;
use crate::outcome::Signal;

verus! {

/// The inputs on which the sample target fails: those of three bytes or more
/// that begin with `a`, `b`, `c`.
pub open spec fn starts_with_abc(bytes: Seq<u8>) -> bool {
    bytes.len() >= 3 && bytes[0] == 0x61u8 && bytes[1] == 0x62u8 && bytes[2] == 0x63u8
}

/// Runs the sample target on `buf` and says how the run ended.
pub fn harness(buf: &[u8]) -> (signal: Signal)
    ensures
        signal == (if starts_with_abc(buf@) { Signal::Faulted } else { Signal::Returned }),
{
    if buf.len() > 0 && buf[0] == 0x61u8 {
        if buf.len() > 1 && buf[1] == 0x62u8 {
            if buf.len() > 2 && buf[2] == 0x63u8 {
                return Signal::Faulted;
            }
        }
    }
    Signal::Returned
}

} // verus!
