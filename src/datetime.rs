use crate::utils::{DATE_FMT, TIME_OUT_FMT};
use chrono::{DateTime, NaiveDateTime, Utc};
use vstd::prelude::*;

verus! {

/// Seconds since the Unix epoch of the naive date-time that `s` spells in
/// chrono format `fmt`, if it spells one.
pub uninterp spec fn naive_seconds_of(s: Seq<char>, fmt: Seq<char>) -> Option<i64>;

/// Seconds since the Unix epoch (UTC) of the date-time with offset that `s`
/// spells in chrono format `fmt`, if it spells one.
pub uninterp spec fn offset_seconds_of(s: Seq<char>, fmt: Seq<char>) -> Option<i64>;

/// The text chrono writes in format `fmt` for the naive date-time `secs`
/// seconds after the Unix epoch, if that instant is within chrono's range.
pub uninterp spec fn formatted_seconds_of(secs: i64, fmt: Seq<char>) -> Option<Seq<char>>;

/// Relies on chrono's `NaiveDateTime::parse_from_str`; the result depends
/// on the two texts alone.
#[verifier::external_body]
pub(crate) fn parse_naive(s: &str, fmt: &str) -> (r: Option<i64>)
    ensures
        r == naive_seconds_of(s@, fmt@),
{
    match NaiveDateTime::parse_from_str(s, fmt) {
        Ok(t) => Some(t.and_utc().timestamp()),
        Err(_) => None,
    }
}

/// Relies on chrono's `DateTime::parse_from_str` (an instant with a UTC
/// offset); the result depends on the two texts alone.
#[verifier::external_body]
pub(crate) fn parse_with_offset(s: &str, fmt: &str) -> (r: Option<i64>)
    ensures
        r == offset_seconds_of(s@, fmt@),
{
    match DateTime::parse_from_str(s, fmt) {
        Ok(t) => Some(t.timestamp()),
        Err(_) => None,
    }
}

/// The output formats of this crate; chrono renders each of them without
/// error (rendering an invalid format would panic in `to_string`).
pub open spec fn output_format(fmt: Seq<char>) -> bool {
    fmt == TIME_OUT_FMT@ || fmt == DATE_FMT@
}

/// Relies on chrono's `DateTime::from_timestamp` (`None` outside chrono's
/// range) and `format`; the result depends on the instant and the format
/// alone.
#[verifier::external_body]
pub(crate) fn format_naive(secs: i64, fmt: &str) -> (r: Option<String>)
    requires
        output_format(fmt@),
    ensures
        match r {
            Some(t) => formatted_seconds_of(secs, fmt@) == Some(t@),
            None => formatted_seconds_of(secs, fmt@) is None,
        },
{
    match DateTime::from_timestamp(secs, 0) {
        Some(t) => Some(t.naive_utc().format(fmt).to_string()),
        None => None,
    }
}

/// Relies on chrono's `Utc::now`: the current time in seconds since the
/// Unix epoch. Nothing is known of the value.
#[verifier::external_body]
pub(crate) fn now_seconds() -> (r: i64) {
    Utc::now().timestamp()
}

} // verus!
