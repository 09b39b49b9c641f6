//! Instants read from and written as text by `chrono`.

use vstd::prelude::*;
use chrono::DateTime;
use std::fmt::Write;

verus! {

/// An instant with the UTC offset it was written in: seconds since the UNIX
/// epoch, the nanoseconds past that second, and the offset east of UTC in
/// seconds.
pub struct ZonedTime {
    pub unix_seconds: i64,
    pub nanos: u32,
    pub offset_seconds: i32,
}

/// What `chrono::DateTime::parse_from_rfc3339` makes of `text`: the parsed
/// instant as (UNIX seconds, sub-second nanoseconds, UTC offset in seconds),
/// or `None` where it reports an error.
pub uninterp spec fn rfc3339_instant(text: Seq<char>) -> Option<(i64, u32, i32)>;

/// What `chrono` writes for the UTC instant `secs`/`nanos` formatted with the
/// strftime `pattern`, or `None` where the instant is out of chrono's range or
/// the pattern cannot be written.
pub uninterp spec fn utc_text(secs: i64, nanos: u32, pattern: Seq<char>) -> Option<Seq<char>>;

/// The instant that an RFC 3339 text denotes, as a `ZonedTime`.
pub open spec fn zoned_of(text: Seq<char>) -> Option<ZonedTime> {
    match rfc3339_instant(text) {
        Some(t) => Some(ZonedTime { unix_seconds: t.0, nanos: t.1, offset_seconds: t.2 }),
        None => None,
    }
}

/// Calls `chrono::DateTime::parse_from_rfc3339` and reads the parsed instant
/// back with `timestamp`, `timestamp_subsec_nanos` and the offset's
/// `local_minus_utc`. The contract claims only that the result is the value
/// `rfc3339_instant` names for the text.
#[verifier::external_body]
fn chrono_parse_rfc3339(text: &str) -> (r: Option<(i64, u32, i32)>)
    ensures
        r == rfc3339_instant(text@),
{
    match DateTime::parse_from_rfc3339(text) {
        Ok(d) => Some((d.timestamp(), d.timestamp_subsec_nanos(), d.offset().local_minus_utc())),
        Err(_) => None,
    }
}

/// Calls `chrono::DateTime::from_timestamp` and writes the instant with
/// `DateTime::format`. The contract claims only that the result is the value
/// `utc_text` names for the arguments.
#[verifier::external_body]
pub(crate) fn chrono_format_utc(secs: i64, nanos: u32, pattern: &str) -> (r: Option<String>)
    ensures
        r matches Some(s) ==> utc_text(secs, nanos, pattern@) == Some(s@),
        r is None ==> utc_text(secs, nanos, pattern@) is None,
{
    let mut out = String::new();
    match DateTime::from_timestamp(secs, nanos) {
        Some(t) => match write!(out, "{}", t.format(pattern)) {
            Ok(()) => Some(out),
            Err(_) => None,
        },
        None => None,
    }
}

/// Reads an RFC 3339 date-and-time such as `2021-12-01T10:00:00.5+01:00`.
pub fn parse_rfc3339(text: &str) -> (r: Option<ZonedTime>)
    ensures
        r == zoned_of(text@),
{
    match chrono_parse_rfc3339(text) {
        Some(t) => Some(ZonedTime { unix_seconds: t.0, nanos: t.1, offset_seconds: t.2 }),
        None => None,
    }
}

} // verus!
