//! The wall clock and time zones, as chrono and chrono-tz give them.

use chrono::{Datelike, Timelike};
use vstd::prelude::*;

verus! {

/// Earliest Unix time, in seconds, that the calendar covers
/// (-262143-01-01 00:00:00 UTC).
pub const MIN_INSTANT: i64 = -8_334_601_228_800;

/// Latest Unix time, in seconds, that the calendar covers
/// (+262142-12-31 23:59:59 UTC).
pub const MAX_INSTANT: i64 = 8_210_266_876_799;

/// Day (0 for Monday), hour and minute at a Unix time in the IANA zone of
/// this name, as chrono and chrono-tz compute them; `None` for a name that
/// the zone database does not hold.
pub uninterp spec fn zone_clock_of(zone: Seq<char>, unix_secs: int) -> Option<(u32, u32, u32)>;

/// Day (0 for Monday), hour and minute at a Unix time in New York, as
/// chrono and chrono-tz compute them.
pub uninterp spec fn new_york_clock_of(unix_secs: int) -> (u32, u32, u32);

pub open spec fn clock_in_range(c: (u32, u32, u32)) -> bool {
    c.0 < 7 && c.1 < 24 && c.2 < 60
}

/// Relies on chrono-tz's `Tz::from_str` (a zone of the database by name)
/// and on chrono's `DateTime::from_timestamp`, `with_timezone` and the
/// readers `weekday().num_days_from_monday()` (0 to 6), `hour()` (0 to 23)
/// and `minute()` (0 to 59) of the local time.
#[verifier::external_body]
pub(crate) fn zone_clock(zone: &str, unix_secs: i64) -> (r: Option<(u32, u32, u32)>)
    requires
        MIN_INSTANT <= unix_secs <= MAX_INSTANT,
    ensures
        r == zone_clock_of(zone@, unix_secs as int),
        r matches Some(c) ==> clock_in_range(c),
{
    let Ok(tz) = zone.parse::<chrono_tz::Tz>() else { return None };
    let utc = chrono::DateTime::from_timestamp(unix_secs, 0)?;
    let local = utc.with_timezone(&tz);
    Some((local.weekday().num_days_from_monday(), local.hour(), local.minute()))
}

/// Relies on chrono-tz's `America::New_York` and on chrono's
/// `DateTime::from_timestamp` (`Some` for every instant from `MIN_INSTANT`
/// to `MAX_INSTANT`), `with_timezone` and the readers of the local time, as
/// for `zone_clock`.
#[verifier::external_body]
pub(crate) fn new_york_clock(unix_secs: i64) -> (r: Option<(u32, u32, u32)>)
    requires
        MIN_INSTANT <= unix_secs <= MAX_INSTANT,
    ensures
        r == Some(new_york_clock_of(unix_secs as int)),
        r matches Some(c) ==> clock_in_range(c),
{
    let utc = chrono::DateTime::from_timestamp(unix_secs, 0)?;
    let local = utc.with_timezone(&chrono_tz::America::New_York);
    Some((local.weekday().num_days_from_monday(), local.hour(), local.minute()))
}

/// Relies on `std::time::SystemTime::now` measured from `UNIX_EPOCH`: whole
/// seconds since the epoch, or `None` for a clock set before it.
#[verifier::external_body]
pub(crate) fn unix_time_now() -> (r: Option<u64>) {
    std::time::SystemTime::now().duration_since(std::time::UNIX_EPOCH).ok().map(|d| d.as_secs())
}

} // verus!
