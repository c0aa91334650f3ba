//! Reading the wall clock.  The trusted part reads the clock and lets
//! the time library decompose the timestamp into UTC civil components;
//! the verified part narrows the raw components to a well-formed
//! [`ClockParts`] reading.

use vstd::prelude::*;
use crate::rfc3339::ClockParts;

verus! {

/// A civil decomposition as the time library hands it out: the year
/// still carries the library's full signed range.
pub struct RawClock {
    pub year: i32,
    pub month: u8,
    pub day: u8,
    pub hour: u8,
    pub minute: u8,
    pub second: u8,
}

/// Relies on std::time::SystemTime::now and its duration_since: the
/// number of whole seconds since the Unix epoch, or `None` when the
/// system clock reads earlier than the epoch.
#[verifier::external_body]
pub(crate) fn unix_seconds_now() -> Option<u64> {
    match std::time::SystemTime::now().duration_since(std::time::UNIX_EPOCH) {
        Ok(d) => Some(d.as_secs()),
        Err(_) => None,
    }
}

/// Relies on time::OffsetDateTime::from_unix_timestamp and its component
/// accessors: the UTC civil reading of a Unix timestamp, or `None` when
/// the timestamp lies outside the years the time library represents.
/// The accessors document their ranges: month 1 to 12, day 1 to 31, hour
/// below 24, minute and second below 60.
#[verifier::external_body]
pub(crate) fn civil_from_unix(secs: i64) -> (r: Option<RawClock>)
    ensures
        r matches Some(c) ==> 1 <= c.month <= 12 && 1 <= c.day <= 31 && c.hour < 24 && c.minute
            < 60 && c.second < 60,
{
    match time::OffsetDateTime::from_unix_timestamp(secs) {
        Ok(t) => Some(
            RawClock {
                year: t.year(),
                month: u8::from(t.month()),
                day: t.day(),
                hour: t.hour(),
                minute: t.minute(),
                second: t.second(),
            },
        ),
        Err(_) => None,
    }
}

/// Narrows a raw civil reading to the RFC 3339 component ranges: it
/// succeeds exactly when every component fits, and keeps each
/// component's value.
pub fn clock_reading_from(raw: &RawClock) -> (r: Option<ClockParts>)
    ensures
        r is Some <==> (0 <= raw.year <= 9999 && 1 <= raw.month <= 12 && 1 <= raw.day <= 31
            && raw.hour <= 23 && raw.minute <= 59 && raw.second <= 59),
        r matches Some(c) ==> c.wf() && c.year as int == raw.year as int && c.month == raw.month
            && c.day == raw.day && c.hour == raw.hour && c.minute == raw.minute && c.second
            == raw.second,
{
    if raw.year < 0 || raw.year > 9999 {
        return None;
    }
    if raw.month < 1 || raw.month > 12 {
        return None;
    }
    if raw.day < 1 || raw.day > 31 {
        return None;
    }
    if raw.hour > 23 || raw.minute > 59 || raw.second > 59 {
        return None;
    }
    Some(
        ClockParts {
            year: raw.year as u16,
            month: raw.month,
            day: raw.day,
            hour: raw.hour,
            minute: raw.minute,
            second: raw.second,
        },
    )
}

/// Reads the wall clock as a well-formed UTC reading: `None` when the
/// clock cannot be read or its date falls outside the RFC 3339 years.
pub fn read_utc_clock() -> (r: Option<ClockParts>)
    ensures
        r matches Some(c) ==> c.wf(),
{
    match unix_seconds_now() {
        Some(secs) => {
            if secs <= i64::MAX as u64 {
                match civil_from_unix(secs as i64) {
                    Some(raw) => clock_reading_from(&raw),
                    None => None,
                }
            } else {
                None
            }
        },
        None => None,
    }
}

} // verus!
