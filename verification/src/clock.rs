//! The wall clock and the calendar, both read through `chrono`.
//!
//! Nothing in this file is proved: each function hands a call to `chrono` on,
//! and its contract states what `chrono` documents of that call.

use crate::time::Timestamp;
use chrono::MappedLocalTime;
use chrono::TimeZone;
use chrono::Utc;
use vstd::prelude::*;

verus! {

/// The instant, in nanoseconds since the Unix epoch, at which the given
/// calendar date and time of day begin in UTC, as
/// `chrono::TimeZone::with_ymd_and_hms` computes it for `chrono::Utc`;
/// `None` where `chrono` has no such date or time.
pub uninterp spec fn utc_calendar_nanos(
    year: int,
    month: int,
    day: int,
    hour: int,
    min: int,
    sec: int,
) -> Option<int>;

/// A date and time of day that exist in every month of every year from 1 to
/// 9999 of the proleptic Gregorian calendar.
pub open spec fn plain_calendar_time(
    year: int,
    month: int,
    day: int,
    hour: int,
    min: int,
    sec: int,
) -> bool {
    &&& 1 <= year <= 9999
    &&& 1 <= month <= 12
    &&& 1 <= day <= 28
    &&& 0 <= hour < 24
    &&& 0 <= min < 60
    &&& 0 <= sec < 60
}

/// Reads the system clock with `chrono::Utc::now` and hands the reading on as
/// seconds (`DateTime::timestamp`) and nanoseconds
/// (`DateTime::timestamp_subsec_nanos`).
///
/// Nothing is claimed of the reading: two calls may give any two instants.
/// `Utc::now` panics where the system clock stands before 1970.
#[verifier::external_body]
pub(crate) fn utc_now() -> (now: Timestamp) {
    let now = Utc::now();
    Timestamp { secs: now.timestamp(), nanos: now.timestamp_subsec_nanos() }
}

/// Makes the instant of a calendar date and time of day in UTC with
/// `chrono::TimeZone::with_ymd_and_hms` on `chrono::Utc`.
///
/// The contract gives the result its name, and claims that `chrono` finds an
/// instant for every `plain_calendar_time`: it refuses only a date that does
/// not exist, a time of day out of range, or a year beyond about ±262,000.
#[verifier::external_body]
pub(crate) fn utc_from_ymd_hms(year: i32, month: u32, day: u32, hour: u32, min: u32, sec: u32) -> (t:
    Option<Timestamp>)
    ensures
        match t {
            Some(t) => utc_calendar_nanos(
                year as int,
                month as int,
                day as int,
                hour as int,
                min as int,
                sec as int,
            ) == Some(t@),
            None => utc_calendar_nanos(
                year as int,
                month as int,
                day as int,
                hour as int,
                min as int,
                sec as int,
            ) is None,
        },
        plain_calendar_time(
            year as int,
            month as int,
            day as int,
            hour as int,
            min as int,
            sec as int,
        ) ==> t is Some,
{
    match Utc.with_ymd_and_hms(year, month, day, hour, min, sec) {
        MappedLocalTime::Single(t) => Some(
            Timestamp { secs: t.timestamp(), nanos: t.timestamp_subsec_nanos() },
        ),
        MappedLocalTime::Ambiguous(_, _) => None,
        MappedLocalTime::None => None,
    }
}

} // verus!
