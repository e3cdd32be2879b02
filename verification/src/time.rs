//! Time: what the library assumes of `std::time`, the conversion of
//! durations to fixed-point numbers, and the system clock.

use crate::fixed::{saturated, Fixed};
use std::time::{Duration, Instant, SystemTime, UNIX_EPOCH};
use vstd::prelude::*;

verus! {

/// The length of a `Duration` in whole nanoseconds.
pub uninterp spec fn duration_nanos(d: Duration) -> nat;

/// `Duration::as_nanos` returns the total number of nanoseconds.
pub assume_specification[ Duration::as_nanos ](d: &Duration) -> (n: u128)
    ensures
        n == duration_nanos(*d),
;

/// `Duration::from_nanos` makes a duration of that many nanoseconds.
pub assume_specification[ Duration::from_nanos ](nanos: u64) -> (d: Duration)
    ensures
        duration_nanos(d) == nanos,
;

/// `Duration::from_millis` makes a duration of that many milliseconds.
pub assume_specification[ Duration::from_millis ](millis: u64) -> (d: Duration)
    ensures
        duration_nanos(d) == millis * 1_000_000,
;

/// `Duration::checked_sub` returns the difference of two durations, or
/// `None` where the second is the longer.
pub assume_specification[ Duration::checked_sub ](d: Duration, rhs: Duration) -> (r: Option<
    Duration,
>)
    ensures
        match r {
            Some(diff) => duration_nanos(diff) == duration_nanos(d) - duration_nanos(rhs),
            None => duration_nanos(d) < duration_nanos(rhs),
        },
;

/// A duration in milliseconds: its nanoseconds are the millionths.
pub fn duration_ms(d: Duration) -> (r: Fixed)
    ensures
        r == saturated(duration_nanos(d) as int),
{
    Fixed::saturating_from_u128(d.as_nanos())
}

/// A duration in seconds: its microseconds, rounded down, are the
/// millionths.
pub fn duration_seconds(d: Duration) -> (r: Fixed)
    ensures
        r == saturated(duration_nanos(d) as int / 1000),
{
    Fixed::saturating_from_u128(d.as_nanos() / 1000)
}

/// `std::time::Instant`, a reading of the monotonic clock.
#[verifier::external_type_specification]
#[verifier::external_body]
pub struct ExInstant(Instant);

/// `Instant::now` reads the monotonic clock. Nothing is promised of the
/// reading.
pub assume_specification[ Instant::now ]() -> (r: Instant)
;

/// A copy of a reading is the same reading.
pub assume_specification[ <Instant as Clone>::clone ](start: &Instant) -> (r: Instant)
    ensures
        r == *start,
;

/// `Instant::elapsed` gives the time that has passed since a reading.
/// Nothing is promised of it.
pub assume_specification[ Instant::elapsed ](start: &Instant) -> (r: Duration)
;

/// `std::time::SystemTime`, a reading of the system clock.
#[verifier::external_type_specification]
#[verifier::external_body]
pub struct ExSystemTime(SystemTime);

/// `SystemTime::now` reads the system clock. Nothing is promised of the
/// reading.
pub assume_specification[ SystemTime::now ]() -> (r: SystemTime)
;

/// `SystemTime::duration_since`, asked for the time from the Unix epoch
/// to a reading; `None` for a reading before the epoch. Nothing is
/// promised of the time.
#[verifier::external_body]
fn since_epoch(time: &SystemTime) -> (r: Option<Duration>) {
    time.duration_since(UNIX_EPOCH).ok()
}

/// The time on the system clock in microseconds since the Unix epoch;
/// zero for a clock that stands before it.
pub(crate) fn now_micros() -> (r: u64) {
    let now = SystemTime::now();
    micros_since_epoch(since_epoch(&now))
}

/// The time on the system clock in milliseconds since the Unix epoch;
/// zero for a clock that stands before it.
pub(crate) fn now_millis() -> (r: i64)
    ensures
        r >= 0,
{
    whole_millis(now_micros())
}

/// The whole microseconds of the time from the Unix epoch to a reading of
/// the clock, at most the largest number there is; zero for a reading
/// before the epoch.
pub open spec fn epoch_micros(since: Option<Duration>) -> u64 {
    match since {
        Some(d) => if duration_nanos(d) / 1000 > u64::MAX {
            u64::MAX
        } else {
            (duration_nanos(d) / 1000) as u64
        },
        None => 0,
    }
}

/// The whole microseconds of the time from the Unix epoch to a reading of
/// the clock; `since` is that time, or `None` for a reading before the
/// epoch.
pub fn micros_since_epoch(since: Option<Duration>) -> (r: u64)
    ensures
        r == epoch_micros(since),
{
    match since {
        Some(d) => {
            let micros = d.as_nanos() / 1000;
            if micros > u64::MAX as u128 {
                u64::MAX
            } else {
                micros as u64
            }
        },
        None => 0,
    }
}

/// The whole milliseconds in a number of microseconds.
pub fn whole_millis(micros: u64) -> (r: i64)
    ensures
        r == micros / 1000,
{
    (micros / 1000) as i64
}

} // verus!
