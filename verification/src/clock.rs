//! Trusted boundary to the monotonic clock.
//!
//! What the clock returns depends on when it is asked, so nothing is promised
//! of these results; the statistics layer states instead what holds whatever
//! they are (the elapsed time is present exactly when it was requested).

use vstd::prelude::*;

verus! {

#[verifier::external_type_specification]
#[verifier::external_body]
pub struct ExInstant(std::time::Instant);

/// Relies on `std::time::Instant::now`: a sample of the monotonic clock.
#[verifier::external_body]
pub(crate) fn monotonic_now() -> std::time::Instant {
    std::time::Instant::now()
}

/// Relies on `std::time::Instant::elapsed`, converted to whole nanoseconds:
/// the time since `start` was sampled.
#[verifier::external_body]
pub(crate) fn elapsed_nanos(start: &std::time::Instant) -> u64 {
    start.elapsed().as_nanos() as u64
}

} // verus!
