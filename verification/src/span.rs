//! A plain-value stand-in for a wall-clock duration, measured in nanoseconds.

use vstd::prelude::*;

verus! {

/// A length of wall-clock time, in whole nanoseconds.
///
/// All durations the engine works with — the bound of a wait directive and
/// the interval between two polls — are values of this type. The range of a
/// `u64` covers more than five centuries, far beyond any wait a test suite
/// would configure; `from_millis` saturates instead of overflowing.
#[derive(Clone, Copy, Debug, PartialEq, Eq, Structural)]
pub struct Span {
    /// The length in nanoseconds.
    pub nanos: u64,
}

/// Nanoseconds in one millisecond.
pub const NANOS_PER_MILLI: u64 = 1_000_000;

impl Span {
    /// A span of exactly `nanos` nanoseconds.
    pub fn from_nanos(nanos: u64) -> (r: Span)
        ensures
            r.nanos == nanos,
    {
        Span { nanos }
    }

    /// A span of `millis` milliseconds, saturating at the largest
    /// representable span.
    pub fn from_millis(millis: u64) -> (r: Span)
        ensures
            millis * NANOS_PER_MILLI <= u64::MAX ==> r.nanos == millis * NANOS_PER_MILLI,
            millis * NANOS_PER_MILLI > u64::MAX ==> r.nanos == u64::MAX,
    {
        if millis <= u64::MAX / NANOS_PER_MILLI {
            Span { nanos: millis * NANOS_PER_MILLI }
        } else {
            Span { nanos: u64::MAX }
        }
    }
}

} // verus!
