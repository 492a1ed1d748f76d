//! Time as plain numbers.
//!
//! Lengths of time are compared in whole nanoseconds. What is trusted of the
//! standard library's time types stands here.

use std::time::{Duration, Instant};
use vstd::prelude::*;

verus! {

pub const NANOS_PER_SEC: u128 = 1_000_000_000;

/// A point on the monotonic clock; nothing is known of what it holds.
#[verifier::external_type_specification]
#[verifier::external_body]
pub struct ExInstant(Instant);

/// The length of a duration in nanoseconds, as `Duration::as_nanos` gives it.
pub uninterp spec fn duration_nanos(d: Duration) -> u128;

/// `Duration::as_nanos` is the total number of nanoseconds in the duration.
pub assume_specification[ Duration::as_nanos ](d: &Duration) -> (nanos: u128)
    ensures
        nanos == duration_nanos(*d),
;

/// `Duration::from_secs` makes a duration of that many whole seconds.
pub assume_specification[ Duration::from_secs ](secs: u64) -> (d: Duration)
    ensures
        duration_nanos(d) == secs * NANOS_PER_SEC,
;

/// `Instant::now` reads the monotonic clock. Nothing is claimed of the reading.
pub assume_specification[ Instant::now ]() -> (now: Instant)
;

/// `Instant::elapsed` is the time since the instant. It rests on when it is
/// called, so nothing is claimed of the result.
pub assume_specification[ Instant::elapsed ](start: &Instant) -> (d: Duration)
;

/// `nanos` is a reading of the clock that starts at `start`: what
/// `Instant::elapsed` may return of it, in nanoseconds.
pub open spec fn is_reading(start: Instant, nanos: u128) -> bool {
    exists|d: Duration| #[trigger]
        call_ensures(Instant::elapsed, (&start,), d) && nanos == duration_nanos(d)
}

/// A reading is the length of a time that `Instant::elapsed` gave for the start
/// of the clock, and nothing else.
pub proof fn law_a_reading_is_elapsed_time(start: Instant, nanos: u128)
    requires
        is_reading(start, nanos),
    ensures
        exists|d: Duration| #[trigger]
            call_ensures(Instant::elapsed, (&start,), d) && nanos == duration_nanos(d),
{
}

} // verus!
