//! Wall-clock times.

use crate::text::digit;
use vstd::prelude::*;

verus! {

/// The second of the day at a time in milliseconds since 1970, in a zone
/// some seconds ahead of universal time.
pub open spec fn second_of_day(ts_ms: i64, offset_secs: i32) -> nat {
    ((ts_ms as int / 1000 + offset_secs) % 86400) as nat
}

/// A number below a hundred, in two digits.
pub open spec fn two_digits(n: nat) -> Seq<char> {
    seq![digit(n / 10), digit(n % 10)]
}

/// A second of the day as hours, minutes and seconds.
pub open spec fn clock_face(second: nat) -> Seq<char> {
    two_digits(second / 3600) + seq![':'] + two_digits(second / 60 % 60) + seq![':'] + two_digits(
        second % 60,
    )
}

/// Whether a calendar reaches a time, given in milliseconds since 1970: it
/// runs from the year -262143 to the year 262142.
pub open spec fn in_calendar(ts_ms: i64) -> bool {
    -8_334_601_228_800_000 <= ts_ms <= 8_210_266_876_799_999
}

/// Whether a zone is less than a day away from universal time.
pub open spec fn is_zone(offset_secs: i32) -> bool {
    -86400 < offset_secs < 86400
}

/// Formats a time with `chrono`: `DateTime::from_timestamp_millis` gives the
/// time in the calendar, `FixedOffset::east_opt` the zone (less than a day
/// from universal time), and the format `%H:%M:%S` its hour, minute and
/// second in that zone, two digits each.
#[verifier::external_body]
fn zone_time(ts_ms: i64, offset_secs: i32) -> (r: Option<String>)
    ensures
        match r {
            Some(t) => in_calendar(ts_ms) && is_zone(offset_secs) && t@ == clock_face(
                second_of_day(ts_ms, offset_secs),
            ),
            None => !in_calendar(ts_ms) || !is_zone(offset_secs),
        },
{
    let zone = chrono::FixedOffset::east_opt(offset_secs)?;
    let at = chrono::DateTime::from_timestamp_millis(ts_ms)?;
    Some(at.with_timezone(&zone).format("%H:%M:%S").to_string())
}

/// The time that a row of the bus shows: blank for a frame without one.
pub open spec fn bus_time(ts_ms: i64, offset_secs: i32) -> Seq<char> {
    if ts_ms != 0 && in_calendar(ts_ms) && is_zone(offset_secs) {
        clock_face(second_of_day(ts_ms, offset_secs))
    } else {
        "        "@
    }
}

/// Formats the time of a frame in the local zone, which is `offset_secs`
/// ahead of universal time at that time.
pub fn format_bus_ts(ts_ms: i64, offset_secs: i32) -> (r: String)
    ensures
        r@ == bus_time(ts_ms, offset_secs),
{
    if ts_ms == 0 {
        return "        ".to_owned();
    }
    match zone_time(ts_ms, offset_secs) {
        Some(t) => t,
        None => "        ".to_owned(),
    }
}

/// A time is shown in eight characters, whether or not the frame has one.
pub proof fn law_bus_time_width(ts_ms: i64, offset_secs: i32)
    ensures
        bus_time(ts_ms, offset_secs).len() == 8,
{
    reveal_strlit("        ");
}

} // verus!
