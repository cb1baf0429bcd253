//! Monotonic time, read through `std::time::Instant`.
use vstd::prelude::*;
use std::time::{Duration, Instant};

verus! {

#[verifier::external_type_specification]
#[verifier::external_body]
pub struct ExInstant(Instant);

/// Calls `std::time::Instant::now`. The result is the time of the call, so
/// nothing is claimed of it.
#[verifier::external_body]
pub(crate) fn instant_now() -> Instant {
    Instant::now()
}

/// Calls `std::time::Instant::duration_since`, the time from `earlier` to
/// `later` (zero when `earlier` is the later of the two). The instants are
/// opaque here, so nothing is claimed of the result.
#[verifier::external_body]
pub(crate) fn duration_since(later: &Instant, earlier: &Instant) -> Duration {
    later.duration_since(*earlier)
}

/// Calls `std::time::Duration::as_nanos`, the nanoseconds in a duration.
/// The duration is opaque here, so nothing is claimed of the result.
#[verifier::external_body]
pub(crate) fn duration_as_nanos(d: &Duration) -> u128 {
    d.as_nanos()
}

} // verus!
