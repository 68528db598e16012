//! The wall clock by which batches are timed.

use vstd::prelude::*;

verus! {

/// A reading of the counter: `time::precise_time_ns`, the value of a
/// high-resolution counter in nanoseconds since an epoch that is not
/// specified. Nothing is claimed of the value.
#[verifier::external_body]
pub(crate) fn now() -> (reading: u64) {
    time::precise_time_ns()
}

/// The nanoseconds from `start` to `end`, and zero where the counter went
/// backwards.
pub open spec fn span(start: u64, end: u64) -> u64 {
    if end >= start {
        (end - start) as u64
    } else {
        0
    }
}

/// The time that passed between two readings of the counter.
pub fn elapsed(start: u64, end: u64) -> (ns: u64)
    ensures
        ns == span(start, end),
{
    if end >= start {
        end - start
    } else {
        0
    }
}

} // verus!
