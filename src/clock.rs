//! Access to the monotonic clock that the polling scanner uses for its timeout.
use std::time::{Duration, Instant};
use vstd::prelude::*;

verus! {

#[verifier::external_type_specification]
#[verifier::external_body]
pub struct ExInstant(std::time::Instant);

/// Relies on `std::time::Instant::now`: the current instant of a monotonic clock. Nothing is
/// stated of the result, which depends on the time of the call.
#[verifier::external_body]
pub(crate) fn now() -> Instant {
    Instant::now()
}

/// Relies on `std::time::Instant::elapsed`: the time that has passed since `since`. Nothing is
/// stated of the result, which depends on the time of the call.
#[verifier::external_body]
pub(crate) fn elapsed(since: &Instant) -> Duration {
    since.elapsed()
}

/// Relies on `std::time::Duration::as_nanos`: the whole nanoseconds of `d`. Nothing is stated
/// of the result.
#[verifier::external_body]
pub(crate) fn nanos(d: &Duration) -> u128 {
    d.as_nanos()
}

} // verus!
