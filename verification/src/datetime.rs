//! Instants of time and their RFC 3339 text.
//!
//! An instant is held as plain numbers: the seconds since 1970-01-01T00:00:00
//! UTC, leap seconds not counted, and the nanoseconds since the last whole
//! second. Reading and writing the text is `chrono`'s work; this module
//! states which instants `chrono` can hold and gives the two conversions a
//! name each.

use vstd::prelude::*;
use vstd::string::*;

verus! {

/// The first second that `chrono` can hold: the start of the year -262143.
pub const MIN_SECONDS: i64 = -8_334_601_228_800;

/// The last second that `chrono` can hold: the end of the year 262142.
pub const MAX_SECONDS: i64 = 8_210_266_876_799;

/// Whether `secs` and `nanos` are an instant that `chrono` can hold: the
/// second lies between the two limits, and the nanoseconds stay under one
/// second, or under two in the last second of a minute, where they write a
/// leap second.
pub open spec fn valid_instant(secs: int, nanos: int) -> bool {
    &&& MIN_SECONDS <= secs <= MAX_SECONDS
    &&& 0 <= nanos < 2_000_000_000
    &&& nanos >= 1_000_000_000 ==> secs % 60 == 59
}

/// Whether `offset` is a distance from UTC, in seconds, that `chrono` can
/// hold: less than a day either way.
pub open spec fn valid_offset(offset: int) -> bool {
    -86_400 < offset < 86_400
}

/// What `chrono` reads from an RFC 3339 text: the instant, as seconds and
/// nanoseconds, or the text of its parse error.
pub uninterp spec fn rfc3339_parse(text: Seq<char>) -> Result<(i64, u32), Seq<char>>;

/// The RFC 3339 text that `chrono` writes for an instant, seen from a zone
/// `offset` seconds east of UTC.
pub uninterp spec fn rfc3339_text(secs: i64, nanos: u32, offset: i32) -> Seq<char>;

/// Whether `secs` and `nanos` are an instant that `chrono` can hold.
pub fn is_valid_instant(secs: i64, nanos: u32) -> (r: bool)
    ensures
        r == valid_instant(secs as int, nanos as int),
{
    if secs < MIN_SECONDS || secs > MAX_SECONDS || nanos >= 2_000_000_000 {
        false
    } else if nanos >= 1_000_000_000 {
        let second: i64 = secs % 60;
        // The remainder of a negative second is negative or zero.
        second == 59 || second == -1
    } else {
        true
    }
}

/// Calls `chrono::DateTime::parse_from_rfc3339` and moves the result to UTC.
///
/// Trusted: the result is what [`rfc3339_parse`] names for this text, the
/// instant by `DateTime::timestamp` and `DateTime::timestamp_subsec_nanos`,
/// the error by its `Display` text. Every instant that comes back is one
/// that `chrono` can hold, since it was read out of a `DateTime`.
#[verifier::external_body]
pub(crate) fn parse_rfc3339(text: &str) -> (r: Result<(i64, u32), String>)
    ensures
        match r {
            Ok(at) => rfc3339_parse(text@) == Ok::<(i64, u32), Seq<char>>(at) && valid_instant(
                at.0 as int,
                at.1 as int,
            ),
            Err(e) => rfc3339_parse(text@) == Err::<(i64, u32), Seq<char>>(e@),
        },
{
    match chrono::DateTime::parse_from_rfc3339(text) {
        Ok(parsed) => {
            let utc = parsed.with_timezone(&chrono::Utc);
            Ok((utc.timestamp(), utc.timestamp_subsec_nanos()))
        },
        Err(e) => Err(e.to_string()),
    }
}

/// Calls `chrono::DateTime::to_rfc3339` on the instant, moved to the zone
/// `offset` seconds east of UTC.
///
/// Trusted: the result is what [`rfc3339_text`] names for these numbers.
/// `DateTime::from_timestamp` and `FixedOffset::east_opt` return `None`
/// outside the ranges that `requires` states, so neither `unwrap` panics.
#[verifier::external_body]
pub(crate) fn format_rfc3339(secs: i64, nanos: u32, offset: i32) -> (r: String)
    requires
        valid_instant(secs as int, nanos as int),
        valid_offset(offset as int),
    ensures
        r@ == rfc3339_text(secs, nanos, offset),
{
    let utc = chrono::DateTime::from_timestamp(secs, nanos).unwrap();
    let zone = chrono::FixedOffset::east_opt(offset).unwrap();
    utc.with_timezone(&zone).to_rfc3339()
}

/// A time zone at a fixed distance from UTC, which the type itself fixes.
pub trait TimeZone: Sized {
    /// The distance from UTC in seconds, east positive.
    spec fn offset() -> i32;

    /// The distance from UTC in seconds, east positive: less than a day.
    fn offset_seconds() -> (r: i32)
        ensures
            r == Self::offset(),
            valid_offset(r as int),
    ;
}

/// Coordinated universal time.
#[derive(Clone, Copy, Debug, PartialEq, Eq)]
pub struct Utc;

impl TimeZone for Utc {
    open spec fn offset() -> i32 {
        0
    }

    fn offset_seconds() -> (r: i32) {
        0
    }
}

} // verus!
