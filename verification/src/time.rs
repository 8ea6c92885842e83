//! Instants on the UTC time line and their conversion to 10 ms ticks.

use vstd::prelude::*;

verus! {

/// Nanoseconds in one second.
pub const NANOS_PER_SEC: i128 = 1_000_000_000;

/// Length of one tick in nanoseconds (10 ms).
pub const SONYFLAKE_TIME_UNIT: i128 = 10_000_000;

/// Ticks in one second.
pub const UNITS_PER_SEC: i128 = 100;

/// An instant on the UTC time line: whole seconds since 1970-01-01T00:00:00Z
/// (leap seconds not counted) and nanoseconds past that second.
///
/// `nanos` may exceed 999,999,999, which is how a leap second is written;
/// the instant is `secs * 10^9 + nanos` nanoseconds either way.
#[derive(Clone, Copy, Debug, PartialEq, Eq)]
pub struct Timestamp {
    pub secs: i64,
    pub nanos: u32,
}

impl View for Timestamp {
    type V = int;

    /// Nanoseconds since the Unix epoch.
    open spec fn view(&self) -> int {
        self.secs * 1_000_000_000 + self.nanos
    }
}

/// The tick that holds the instant `nanos`: the number of whole ticks from the
/// Unix epoch to it, rounded toward the past.
pub open spec fn sonyflake_time(nanos: int) -> int {
    nanos / 10_000_000
}

impl Timestamp {
    pub fn new(secs: i64, nanos: u32) -> (t: Timestamp)
        ensures
            t.secs == secs,
            t.nanos == nanos,
    {
        Timestamp { secs, nanos }
    }

    /// Nanoseconds since the Unix epoch.
    pub fn unix_nanos(&self) -> (n: i128)
        ensures
            n == self@,
    {
        (self.secs as i128) * NANOS_PER_SEC + (self.nanos as i128)
    }

    /// Whether this instant lies strictly after `other`.
    pub fn is_after(&self, other: &Timestamp) -> (later: bool)
        ensures
            later == (self@ > other@),
    {
        self.unix_nanos() > other.unix_nanos()
    }
}

/// The tick that holds `time`.
pub fn to_sonyflake_time(time: Timestamp) -> (units: i128)
    ensures
        units == sonyflake_time(time@),
{
    let whole: i128 = (time.secs as i128) * UNITS_PER_SEC;
    let part: i128 = (time.nanos / 10_000_000) as i128;
    assert((time.secs * 1_000_000_000 + time.nanos) / 10_000_000 == time.secs * 100 + time.nanos
        / 10_000_000) by (nonlinear_arith);
    whole + part
}

/// The clock reading of a generator whose start time is the tick
/// `start_time`, at the instant `now`: the number of ticks from the start tick
/// to the tick that holds `now`. A clock that stands before the start time
/// reads 0; a reading that 64 bits cannot hold reads `u64::MAX`.
pub open spec fn elapsed_since(start_time: int, now: int) -> int {
    let ticks = sonyflake_time(now) - start_time;
    if ticks < 0 {
        0
    } else if ticks > u64::MAX {
        u64::MAX as int
    } else {
        ticks
    }
}

/// The time in nanoseconds from the instant `now` to the beginning of the
/// tick `tick`, counted from the start tick `start_time`: 0 where that tick
/// has begun, `u64::MAX` where 64 bits cannot hold the time.
pub open spec fn nanos_until(start_time: int, tick: int, now: int) -> int {
    let nanos = (start_time + tick) * 10_000_000 - now;
    if nanos < 0 {
        0
    } else if nanos > u64::MAX {
        u64::MAX as int
    } else {
        nanos
    }
}

/// The clock reading at `now` of a generator that started at `start_time`.
pub fn elapsed_time(start_time: Timestamp, now: Timestamp) -> (elapsed: u64)
    ensures
        elapsed == elapsed_since(sonyflake_time(start_time@), now@),
{
    let ticks: i128 = to_sonyflake_time(now) - to_sonyflake_time(start_time);
    if ticks < 0 {
        0
    } else if ticks > u64::MAX as i128 {
        u64::MAX
    } else {
        ticks as u64
    }
}

/// The time in nanoseconds from `now` to the beginning of the tick `tick` of
/// a generator that started at `start_time`.
pub fn time_until(start_time: Timestamp, tick: u64, now: Timestamp) -> (nanos: u64)
    ensures
        nanos == nanos_until(sonyflake_time(start_time@), tick as int, now@),
{
    let begins: i128 = (to_sonyflake_time(start_time) + tick as i128) * SONYFLAKE_TIME_UNIT;
    let nanos: i128 = begins - now.unix_nanos();
    if nanos < 0 {
        0
    } else if nanos > u64::MAX as i128 {
        u64::MAX
    } else {
        nanos as u64
    }
}

/// A clock reading differs by less than one tick from the time that has
/// passed between the two instants, measured in ticks: it is the whole number
/// of ticks in that time, or one more.
pub proof fn lemma_elapsed_within_one_tick(start: int, now: int)
    requires
        start <= now,
        now - start <= u64::MAX,
    ensures
        (now - start) / 10_000_000 <= elapsed_since(sonyflake_time(start), now) <= (now - start)
            / 10_000_000 + 1,
{
}

/// A clock never reads less at a later instant.
pub proof fn lemma_elapsed_monotonic(start_time: int, earlier: int, later: int)
    requires
        earlier <= later,
    ensures
        elapsed_since(start_time, earlier) <= elapsed_since(start_time, later),
{
}

} // verus!
