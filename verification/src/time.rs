//! Calendar timestamps as plain values, and the clock reading that produces
//! them. Timestamps feed the deterministic output-file and log-file naming.

use vstd::prelude::*;

verus! {

/// One civil-time reading, second precision, as plain values.
#[derive(Clone, Copy, PartialEq, Eq, Structural, Debug)]
pub struct Timestamp {
    pub year: u16,
    pub month: u8,
    pub day: u8,
    pub hour: u8,
    pub minute: u8,
    pub second: u8,
}

impl Timestamp {
    /// Every field is in the range of a civil-time reading, and the year has
    /// at most four decimal digits.
    pub open spec fn wf(self) -> bool {
        &&& self.year <= 9999
        &&& 1 <= self.month <= 12
        &&& 1 <= self.day <= 31
        &&& self.hour <= 23
        &&& self.minute <= 59
        &&& self.second <= 59
    }

    /// Builds a timestamp from in-range parts.
    pub fn new(year: u16, month: u8, day: u8, hour: u8, minute: u8, second: u8) -> (r: Timestamp)
        requires
            year <= 9999,
            1 <= month <= 12,
            1 <= day <= 31,
            hour <= 23,
            minute <= 59,
            second <= 59,
        ensures
            r.wf(),
            r.year == year,
            r.month == month,
            r.day == day,
            r.hour == hour,
            r.minute == minute,
            r.second == second,
    {
        Timestamp { year, month, day, hour, minute, second }
    }
}

/// The year a clock reading is recorded under: clamped into the four decimal
/// digits that the file names carry.
pub open spec fn spec_clamp_year(year: int) -> u16 {
    if year < 0 {
        0
    } else if year > 9999 {
        9999
    } else {
        year as u16
    }
}

/// Builds a timestamp from a raw clock reading, clamping the year into four
/// decimal digits.
pub fn timestamp_from_clock(year: i32, month: u8, day: u8, hour: u8, minute: u8, second: u8) -> (r:
    Timestamp)
    requires
        1 <= month <= 12,
        1 <= day <= 31,
        hour <= 23,
        minute <= 59,
        second <= 59,
    ensures
        r.wf(),
        r.year == spec_clamp_year(year as int),
        r.month == month,
        r.day == day,
        r.hour == hour,
        r.minute == minute,
        r.second == second,
{
    let y: u16 = if year < 0 {
        0
    } else if year > 9999 {
        9999
    } else {
        year as u16
    };
    Timestamp { year: y, month, day, hour, minute, second }
}

/// Relies on chrono::Local::now and chrono's Datelike/Timelike accessors:
/// month is 1 to 12, day of month 1 to 31, hour 0 to 23, minute 0 to 59,
/// second 0 to 59; the year is unconstrained.
#[verifier::external_body]
fn clock_now_parts() -> (r: (i32, u8, u8, u8, u8, u8))
    ensures
        1 <= r.1 <= 12,
        1 <= r.2 <= 31,
        r.3 <= 23,
        r.4 <= 59,
        r.5 <= 59,
{
    let now = chrono::Local::now();
    (
        chrono::Datelike::year(&now),
        chrono::Datelike::month(&now) as u8,
        chrono::Datelike::day(&now) as u8,
        chrono::Timelike::hour(&now) as u8,
        chrono::Timelike::minute(&now) as u8,
        chrono::Timelike::second(&now) as u8,
    )
}

/// Reads the local clock as a well-formed timestamp.
pub fn now_timestamp() -> (r: Timestamp)
    ensures
        r.wf(),
{
    let (year, month, day, hour, minute, second) = clock_now_parts();
    timestamp_from_clock(year, month, day, hour, minute, second)
}

} // verus!
