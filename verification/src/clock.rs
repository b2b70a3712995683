//! The monotonic clock of the standard library, as far as the exchange
//! needs it.
//!
//! Nothing is known of a reading: no item here promises anything about the
//! values that come back. What the library does with a reading is stated
//! for every value it may take.

use vstd::prelude::*;
use std::time::{Duration, Instant};

verus! {

/// `std::time::Instant`: a point on the monotonic clock. Its contents stay
/// hidden.
#[verifier::external_type_specification]
#[verifier::external_body]
pub struct ExInstant(Instant);

/// `Instant::now` reads the clock. No claim is made about the reading.
pub assume_specification[ Instant::now ]() -> (now: Instant);

/// `Instant::saturating_duration_since` gives the time from `earlier` to
/// `later`, zero where `earlier` is the later one. No claim is made about
/// the duration.
pub assume_specification[ Instant::saturating_duration_since ](
    later: &Instant,
    earlier: Instant,
) -> (passed: Duration);

/// `Duration::as_micros` gives the whole microseconds of a duration. No
/// claim is made about the number.
pub assume_specification[ Duration::as_micros ](duration: &Duration) -> (micros: u128);

/// The whole microseconds that have passed since `started`.
pub(crate) fn micros_since(started: Instant) -> (micros: u128) {
    let now = Instant::now();
    let passed = now.saturating_duration_since(started);
    passed.as_micros()
}

} // verus!
