//! RFC 3339 timestamps, read and written by `chrono`, and the clock.
use vstd::prelude::*;

use chrono::TimeZone;

verus! {

/// The milliseconds since the Unix epoch of an RFC 3339 date-time, when
/// `chrono` parses the text as one.
pub uninterp spec fn rfc3339_millis(s: Seq<char>) -> Option<i64>;

/// The whole seconds since the Unix epoch of an RFC 3339 date-time, when
/// `chrono` parses the text as one.
pub uninterp spec fn rfc3339_seconds(s: Seq<char>) -> Option<i64>;

/// The RFC 3339 text (in UTC) of an instant given in milliseconds since the
/// Unix epoch, when the instant is within `chrono`'s range.
pub uninterp spec fn utc_rfc3339_of_millis(ms: i64) -> Option<Seq<char>>;

/// Calls `chrono::DateTime::parse_from_rfc3339` and then `timestamp_millis`
/// on what it parsed; the result is named `rfc3339_millis`.
#[verifier::external_body]
pub(crate) fn parse_rfc3339_millis(s: &str) -> (r: Option<i64>)
    ensures
        r == rfc3339_millis(s@),
{
    match chrono::DateTime::parse_from_rfc3339(s) {
        Ok(value) => Some(value.timestamp_millis()),
        Err(_) => None,
    }
}

/// Calls `chrono::DateTime::parse_from_rfc3339` and then `timestamp` on what
/// it parsed; the result is named `rfc3339_seconds`.
#[verifier::external_body]
pub(crate) fn parse_rfc3339_seconds(s: &str) -> (r: Option<i64>)
    ensures
        r == rfc3339_seconds(s@),
{
    match chrono::DateTime::parse_from_rfc3339(s) {
        Ok(value) => Some(value.timestamp()),
        Err(_) => None,
    }
}

/// Calls `chrono::Utc.timestamp_millis_opt`, keeps its single result and
/// writes it with `to_rfc3339`; the result is named `utc_rfc3339_of_millis`.
#[verifier::external_body]
pub(crate) fn format_utc_millis(ms: i64) -> (r: Option<String>)
    ensures
        match r {
            Some(text) => utc_rfc3339_of_millis(ms) == Some(text@),
            None => utc_rfc3339_of_millis(ms) is None,
        },
{
    match chrono::Utc.timestamp_millis_opt(ms).single() {
        Some(value) => Some(value.to_rfc3339()),
        None => None,
    }
}

/// The RFC 3339 text (in UTC) of an instant given in whole seconds since the
/// Unix epoch, when the instant is within `chrono`'s range.
pub uninterp spec fn utc_rfc3339_of_seconds(secs: i64) -> Option<Seq<char>>;

/// Calls `chrono::DateTime::from_timestamp(secs, 0)` and writes what it
/// gives with `to_rfc3339`; the result is named `utc_rfc3339_of_seconds`.
#[verifier::external_body]
pub(crate) fn format_utc_seconds(secs: i64) -> (r: Option<String>)
    ensures
        match r {
            Some(text) => utc_rfc3339_of_seconds(secs) == Some(text@),
            None => utc_rfc3339_of_seconds(secs) is None,
        },
{
    chrono::DateTime::from_timestamp(secs, 0).map(|value| value.to_rfc3339())
}

/// Calls `SystemTime::elapsed` on the Unix epoch: the system clock in whole
/// seconds since then (zero for a clock set before it). Nothing is promised
/// of the value: it is the time.
#[verifier::external_body]
pub(crate) fn unix_now_secs() -> u64 {
    match std::time::UNIX_EPOCH.elapsed() {
        Ok(elapsed) => elapsed.as_secs(),
        Err(_) => 0,
    }
}

} // verus!
