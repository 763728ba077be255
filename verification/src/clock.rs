//! The engine's contact with wall-clock time: reading a monotonic clock and
//! sleeping between polls. Time is opaque to the verifier, so these are the
//! trusted edge of the library; every reading is handled by verified code
//! that assumes nothing about its value.

use vstd::prelude::*;

use crate::span::Span;

verus! {

/// A monotonic clock reading, opaque to the verifier.
#[verifier::external_type_specification]
#[verifier::external_body]
pub struct ExInstant(std::time::Instant);

/// Relies on std::time::Instant::now: returns the monotonic clock's opaque
/// reading for this moment.
#[verifier::external_body]
pub(crate) fn clock_now() -> std::time::Instant {
    std::time::Instant::now()
}

/// Relies on std::time::Instant::elapsed: the wall-clock time since `start`,
/// here in whole nanoseconds, saturated to `u64::MAX`. Nothing is assumed of
/// the value: the caller must cope with every reading.
#[verifier::external_body]
pub(crate) fn nanos_since(start: &std::time::Instant) -> u64 {
    u64::try_from(start.elapsed().as_nanos()).unwrap_or(u64::MAX)
}

/// Relies on spin_sleep::sleep: blocks the calling thread for the given
/// time (a documented stand-in for a plain thread sleep).
#[verifier::external_body]
pub(crate) fn sleep_for(interval: Span) {
    spin_sleep::sleep(core::time::Duration::from_nanos(interval.nanos));
}

} // verus!
