//! Points in time and lengths of time, counted in milliseconds.

use vstd::prelude::*;

verus! {

/// Milliseconds in a day.
pub const MILLIS_PER_DAY: i64 = 86_400_000;

/// Milliseconds in a week.
pub const MILLIS_PER_WEEK: i64 = 604_800_000;

/// A point in time: milliseconds since the start of 1970, UTC.
#[derive(Clone, Copy, Debug, PartialEq, Eq, PartialOrd, Ord, Hash, Structural)]
pub struct Timestamp(pub i64);

/// A length of time in milliseconds, negative where it reaches back. Wide
/// enough for the distance between any two timestamps.
#[derive(Clone, Copy, Debug, PartialEq, Eq, PartialOrd, Ord, Hash, Structural)]
pub struct TimeSpan(pub i128);

impl Timestamp {
    /// The time from `earlier` to this point.
    pub fn since(&self, earlier: Timestamp) -> (span: TimeSpan)
        ensures
            span.0 == self.0 - earlier.0,
    {
        TimeSpan(self.0 as i128 - earlier.0 as i128)
    }

    /// The current time on the system's clock.
    pub fn now() -> Timestamp {
        Timestamp(clock_millis())
    }
}

impl TimeSpan {
    /// No time at all.
    pub fn zero() -> (span: TimeSpan)
        ensures
            span.0 == 0,
    {
        TimeSpan(zero_millis() as i128)
    }

    /// That many days of twenty-four hours.
    pub fn days(days: i32) -> (span: TimeSpan)
        ensures
            span.0 == days * MILLIS_PER_DAY,
    {
        TimeSpan(day_millis(days as i64) as i128)
    }

    /// That many weeks of seven days.
    pub fn weeks(weeks: i32) -> (span: TimeSpan)
        ensures
            span.0 == weeks * MILLIS_PER_WEEK,
    {
        TimeSpan(week_millis(weeks as i64) as i128)
    }

    /// The longest length of time that the calendar library can hold.
    pub fn longest() -> (span: TimeSpan)
        ensures
            span.0 == i64::MAX,
    {
        TimeSpan(longest_millis() as i128)
    }
}

/// Calls `chrono::Duration::zero`. Trusted: the duration has no milliseconds.
#[verifier::external_body]
fn zero_millis() -> (millis: i64)
    ensures
        millis == 0,
{
    chrono::Duration::zero().num_milliseconds()
}

/// Calls `chrono::Duration::days`. Trusted: within the bound, where it does
/// not panic, the duration has 86,400,000 milliseconds for each day.
#[verifier::external_body]
fn day_millis(days: i64) -> (millis: i64)
    requires
        -0x8000_0000 <= days <= 0x8000_0000,
    ensures
        millis == days * MILLIS_PER_DAY,
{
    chrono::Duration::days(days).num_milliseconds()
}

/// Calls `chrono::Duration::weeks`. Trusted: within the bound, where it does
/// not panic, the duration has 604,800,000 milliseconds for each week.
#[verifier::external_body]
fn week_millis(weeks: i64) -> (millis: i64)
    requires
        -0x8000_0000 <= weeks <= 0x8000_0000,
    ensures
        millis == weeks * MILLIS_PER_WEEK,
{
    chrono::Duration::weeks(weeks).num_milliseconds()
}

/// Calls `chrono::Duration::max_value`. Trusted: the longest duration has
/// `i64::MAX` milliseconds.
#[verifier::external_body]
#[allow(deprecated)]
fn longest_millis() -> (millis: i64)
    ensures
        millis == i64::MAX,
{
    chrono::Duration::max_value().num_milliseconds()
}

/// Calls `chrono::Local::now` and reads it in milliseconds. Nothing is known
/// of what the clock says.
#[verifier::external_body]
fn clock_millis() -> i64 {
    chrono::Local::now().timestamp_millis()
}

} // verus!
