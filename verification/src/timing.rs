//! The monotonic clock behind the timing probes.
//!
//! A probe reports how long a batch query took; the value depends on the
//! clock and the machine, so the trusted items here promise nothing of it.

use vstd::prelude::*;

verus! {

#[verifier::external_type_specification]
#[verifier::external_body]
pub struct ExInstant(std::time::Instant);

/// Relies on `std::time::Instant::now`: an opaque reading of the monotonic
/// clock.
#[verifier::external_body]
pub(crate) fn instant_now() -> std::time::Instant {
    std::time::Instant::now()
}

/// Relies on `std::time::Instant::elapsed`: the time since the reading, as a
/// count of whole nanoseconds, saturating at `i64::MAX` (reachable only after
/// centuries). The count is never negative; beyond that it depends on the
/// clock, so nothing more is promised of it.
#[verifier::external_body]
pub(crate) fn elapsed_nanos(start: &std::time::Instant) -> (r: i64)
    ensures
        r >= 0,
{
    let nanos = start.elapsed().as_nanos();
    if nanos > i64::MAX as u128 {
        i64::MAX
    } else {
        nanos as i64
    }
}

} // verus!
