use crate::datetime::{
    format_naive, formatted_seconds_of, naive_seconds_of, offset_seconds_of, parse_naive,
    parse_with_offset,
};
use crate::error::CoreError;
use vstd::prelude::*;

verus! {

/// Label of a morning slot (09:00 to 11:00).
pub const TIME_AM: &'static str = "上午";

/// Label of an afternoon slot (15:00 to 17:00).
pub const TIME_PM: &'static str = "下午";

pub const GENDER_MALE: &'static str = "男";

pub const GENDER_FEMALE: &'static str = "女";

/// Accepted input: a date-time with a numeric UTC offset.
pub const TIME_FMT: &'static str = "%Y-%m-%dT%H:%M:%S%.f%:z";

/// Accepted input: a UTC date-time ending in `Z`.
pub const TIME_FMT_SPECIAL: &'static str = "%Y-%m-%dT%H:%M:%S%.fZ";

/// Output: a naive date-time, to which `+00:00` is appended.
pub const TIME_OUT_FMT: &'static str = "%Y-%m-%dT%H:%M:%S%.f";

/// Output: a date alone.
pub const DATE_FMT: &'static str = "%Y-%m-%d";

pub const SECS_PER_DAY: i64 = 86400;

pub const NOON_SECS: i64 = 43200;

/// Accepts exactly the two gender labels.
pub fn assert_gender_str(gender: &str) -> (r: Result<(), CoreError>)
    ensures
        r is Ok <==> (gender@ == GENDER_MALE@ || gender@ == GENDER_FEMALE@),
        r is Err ==> r == Err::<(), CoreError>(CoreError::InvalidGender),
{
    let g = gender.to_owned();
    if g != GENDER_MALE.to_owned() && g != GENDER_FEMALE.to_owned() {
        return Err(CoreError::InvalidGender);
    }
    Ok(())
}

/// A LIKE pattern matching every text that contains `s`.
pub fn get_str_pattern(s: &str) -> (r: String)
    ensures
        r@ == seq!['%'] + s@ + seq!['%'],
{
    proof {
        reveal_strlit("%");
    }
    let r = "%".to_owned();
    let r = r.concat(s);
    r.concat("%")
}

/// The LIKE pattern for an optional filter: everything when it is absent.
pub fn get_str_pattern_opt(s: Option<&str>) -> (r: String)
    ensures
        r@ == match s {
            Some(t) => seq!['%'] + t@ + seq!['%'],
            None => seq!['%'],
        },
{
    match s {
        Some(t) => get_str_pattern(t),
        None => {
            proof {
                reveal_strlit("%");
            }
            "%".to_owned()
        },
    }
}

/// The instant that a time text denotes: one ending in `Z` is read as
/// UTC, any other as a date-time with an offset, converted to UTC.
pub open spec fn parsed_time(s: Seq<char>) -> Option<i64> {
    if s.len() > 0 && s.last() == 'Z' {
        naive_seconds_of(s, TIME_FMT_SPECIAL@)
    } else {
        offset_seconds_of(s, TIME_FMT@)
    }
}

pub open spec fn time_result(t: Option<i64>) -> Result<i64, CoreError> {
    match t {
        Some(v) => Ok(v),
        None => Err(CoreError::InvalidTime),
    }
}

/// Parses a time text into seconds since the Unix epoch (UTC).
pub fn parse_time_str(s: &str) -> (r: Result<i64, CoreError>)
    ensures
        r == time_result(parsed_time(s@)),
{
    let n = s.unicode_len();
    let t = if n > 0 && s.get_char(n - 1) == 'Z' {
        parse_naive(s, TIME_FMT_SPECIAL)
    } else {
        parse_with_offset(s, TIME_FMT)
    };
    match t {
        Some(v) => Ok(v),
        None => Err(CoreError::InvalidTime),
    }
}

pub open spec fn pair_result(a: Option<i64>, b: Option<i64>) -> Result<(i64, i64), CoreError> {
    match (a, b) {
        (Some(x), Some(y)) => Ok((x, y)),
        _ => Err(CoreError::InvalidTime),
    }
}

/// Parses both ends of a time range.
pub fn parse_time_pair_str(start_time: &str, end_time: &str) -> (r: Result<(i64, i64), CoreError>)
    ensures
        r == pair_result(parsed_time(start_time@), parsed_time(end_time@)),
{
    let start = parse_time_str(start_time)?;
    let end = parse_time_str(end_time)?;
    Ok((start, end))
}

/// Earliest time an open range starts at.
pub const TIME_MIN: &'static str = "1901-01-01T00:00:00.0000Z";

/// Latest time an open range ends at.
pub const TIME_MAX: &'static str = "2901-01-01T00:00:00.0000Z";

/// Parses a time range whose ends may be missing; a missing start is
/// `TIME_MIN` and a missing end `TIME_MAX`.
pub fn parse_time_pair_str_opt(start_time: Option<&str>, end_time: Option<&str>) -> (r: Result<
    (i64, i64),
    CoreError,
>)
    ensures
        r == pair_result(
            match start_time {
                Some(s) => parsed_time(s@),
                None => parsed_time(TIME_MIN@),
            },
            match end_time {
                Some(e) => parsed_time(e@),
                None => parsed_time(TIME_MAX@),
            },
        ),
{
    let start = match start_time {
        Some(s) => s,
        None => TIME_MIN,
    };
    let end = match end_time {
        Some(e) => e,
        None => TIME_MAX,
    };
    parse_time_pair_str(start, end)
}

/// Start and end texts of a whole day `date` (`YYYY-MM-DD`) in UTC.
pub const DAY_START: &'static str = "T00:00:00+00:00";

pub const DAY_END: &'static str = "T23:59:59+00:00";

/// The range a date filter selects: the whole of `date`, or every time
/// when there is no date.
pub fn get_time_pair_from_date_opt(date: Option<&str>) -> (r: Result<(i64, i64), CoreError>)
    ensures
        r == match date {
            Some(d) => pair_result(parsed_time(d@ + DAY_START@), parsed_time(d@ + DAY_END@)),
            None => pair_result(parsed_time(TIME_MIN@), parsed_time(TIME_MAX@)),
        },
{
    match date {
        Some(d) => {
            let start = d.to_owned().concat(DAY_START);
            let end = d.to_owned().concat(DAY_END);
            parse_time_pair_str(start.as_str(), end.as_str())
        },
        None => parse_time_pair_str_opt(None, None),
    }
}

pub const AM_START: &'static str = "T09:00:00+00:00";

pub const AM_END: &'static str = "T11:00:00+00:00";

pub const PM_START: &'static str = "T15:00:00+00:00";

pub const PM_END: &'static str = "T17:00:00+00:00";

/// The interval of the half-day `time` (`TIME_AM` or `TIME_PM`) on `date`.
pub fn get_time_from_str(date: &str, time: &str) -> (r: Result<(i64, i64), CoreError>)
    ensures
        r == if time@ == TIME_AM@ {
            pair_result(parsed_time(date@ + AM_START@), parsed_time(date@ + AM_END@))
        } else if time@ == TIME_PM@ {
            pair_result(parsed_time(date@ + PM_START@), parsed_time(date@ + PM_END@))
        } else {
            Err(CoreError::InvalidTime)
        },
{
    let t = time.to_owned();
    if t == TIME_AM.to_owned() {
        let start = date.to_owned().concat(AM_START);
        let end = date.to_owned().concat(AM_END);
        parse_time_pair_str(start.as_str(), end.as_str())
    } else if t == TIME_PM.to_owned() {
        let start = date.to_owned().concat(PM_START);
        let end = date.to_owned().concat(PM_END);
        parse_time_pair_str(start.as_str(), end.as_str())
    } else {
        Err(CoreError::InvalidTime)
    }
}

/// Seconds since midnight (UTC) of the instant `t`.
pub open spec fn seconds_of_day(t: i64) -> int {
    t as int % SECS_PER_DAY as int
}

/// Which half-day label a slot gets: afternoon when it ends at or after noon.
pub fn get_time_str(start_time: i64, end_time: i64) -> (r: &'static str)
    ensures
        r@ == if seconds_of_day(end_time) >= NOON_SECS {
            TIME_PM@
        } else {
            TIME_AM@
        },
{
    let _ = start_time;
    match end_time.checked_rem_euclid(SECS_PER_DAY) {
        Some(s) => if s >= NOON_SECS {
            TIME_PM
        } else {
            TIME_AM
        },
        None => TIME_AM,
    }
}

/// Renders the instant `t` as a date-time with a `+00:00` offset, when
/// chrono can represent it.
pub fn format_time_str(time: i64) -> (r: Option<String>)
    ensures
        match r {
            Some(s) => exists|body: Seq<char>|
                formatted_seconds_of(time, TIME_OUT_FMT@) == Some(body) && s@ == body
                    + "+00:00"@,
            None => formatted_seconds_of(time, TIME_OUT_FMT@) is None,
        },
{
    match format_naive(time, TIME_OUT_FMT) {
        Some(body) => Some(body.concat("+00:00")),
        None => None,
    }
}

/// Renders the date (UTC) of the instant `time` as `YYYY-MM-DD`, when
/// chrono can represent it.
pub fn format_date_str(time: i64) -> (r: Option<String>)
    ensures
        match r {
            Some(s) => formatted_seconds_of(time, DATE_FMT@) == Some(s@),
            None => formatted_seconds_of(time, DATE_FMT@) is None,
        },
{
    format_naive(time, DATE_FMT)
}

} // verus!
