//! The monotonic clock. Nothing is claimed of what it returns: readings depend
//! on when the calls are made.
use std::time::{Duration, Instant};
use vstd::prelude::*;

verus! {

/// A point in time of the monotonic clock.
#[verifier::external_type_specification]
#[verifier::external_body]
pub struct ExInstant(Instant);

/// Calls `std::time::Instant::now`: the current time; no claim is made of it.
#[verifier::external_body]
pub(crate) fn instant_now() -> Instant {
    Instant::now()
}

/// Calls `std::time::Instant::elapsed`: the time passed since `t`; no claim is
/// made of it.
#[verifier::external_body]
pub(crate) fn instant_elapsed(t: &Instant) -> Duration {
    t.elapsed()
}

/// Calls `std::time::Duration::as_secs`: the whole seconds of `d`; no claim is
/// made of the value, as `d` is opaque here.
#[verifier::external_body]
pub(crate) fn duration_as_secs(d: &Duration) -> u64 {
    d.as_secs()
}

/// Calls `std::time::Duration::as_millis`: the whole milliseconds of `d`; no
/// claim is made of the value, as `d` is opaque here.
#[verifier::external_body]
pub(crate) fn duration_as_millis(d: &Duration) -> u128 {
    d.as_millis()
}

} // verus!
