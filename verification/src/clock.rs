//! The wall clock, and parsing of timestamp strings into seconds.

use vstd::prelude::*;

use crate::error::ApiError;

verus! {

/// Relies on `chrono::Utc::now`: seconds since the epoch. The clock can
/// read anything, so nothing is promised of the value; chrono aborts if
/// the host clock is set before the epoch, a case it gives no way to
/// observe as a value.
#[verifier::external_body]
pub(crate) fn now_seconds_raw() -> (r: i64) {
    chrono::Utc::now().timestamp()
}

/// A clock reading clamped to nonnegative seconds.
pub open spec fn clamped(t: i64) -> u64 {
    if t >= 0 {
        t as u64
    } else {
        0
    }
}

/// A clock reading clamped to a nonnegative number of seconds.
pub fn clamp_seconds(t: i64) -> (r: u64)
    ensures
        r == clamped(t),
        r <= i64::MAX as u64,
{
    if t < 0 {
        0
    } else {
        t as u64
    }
}

/// The current time as nonnegative seconds since the epoch.
pub fn now_seconds() -> (r: u64)
    ensures
        r <= i64::MAX as u64,
{
    clamp_seconds(now_seconds_raw())
}

/// The seconds since the epoch that an RFC 3339 timestamp denotes, or
/// nothing for any other string.
pub uninterp spec fn rfc3339_seconds(s: Seq<char>) -> Option<i64>;

/// The seconds since the epoch of midnight (UTC) on a calendar date
/// written as year-month-day, or nothing for any other string.
pub uninterp spec fn ymd_seconds(s: Seq<char>) -> Option<i64>;

/// Relies on `chrono::DateTime::parse_from_rfc3339`: the deterministic
/// parse behind `rfc3339_seconds`.
#[verifier::external_body]
fn parse_rfc3339_secs(s: &str) -> (r: Option<i64>)
    ensures
        r == rfc3339_seconds(s@),
{
    match chrono::DateTime::parse_from_rfc3339(s) {
        Ok(dt) => Some(dt.with_timezone(&chrono::Utc).timestamp()),
        Err(_) => None,
    }
}

/// Relies on `chrono::NaiveDate::parse_from_str` with a year-month-day
/// format: the deterministic parse behind `ymd_seconds`.
#[verifier::external_body]
fn parse_ymd_secs(s: &str) -> (r: Option<i64>)
    ensures
        r == ymd_seconds(s@),
{
    let date = match chrono::NaiveDate::parse_from_str(s, "%Y-%m-%d") {
        Ok(d) => d,
        Err(_) => return None,
    };
    match date.and_hms_opt(0, 0, 0) {
        Some(dt) => Some(dt.and_utc().timestamp()),
        None => None,
    }
}

/// The timestamp a request field denotes: nothing for an empty string, a
/// clamped RFC 3339 instant or a calendar date at midnight when either
/// parses, and `InvalidRequest` for anything else.
pub fn parse_timestamp(s: &str) -> (r: Result<Option<u64>, ApiError>)
    ensures
        s@.len() == 0 ==> r == Ok::<Option<u64>, ApiError>(None::<u64>),
        s@.len() > 0 && rfc3339_seconds(s@) is Some ==> r == Ok::<Option<u64>, ApiError>(
            Some(clamped(rfc3339_seconds(s@)->Some_0)),
        ),
        s@.len() > 0 && rfc3339_seconds(s@) is None && ymd_seconds(s@) is Some ==> r == Ok::<
            Option<u64>,
            ApiError,
        >(Some(clamped(ymd_seconds(s@)->Some_0))),
        s@.len() > 0 && rfc3339_seconds(s@) is None && ymd_seconds(s@) is None ==> r == Err::<
            Option<u64>,
            ApiError,
        >(ApiError::InvalidRequest),
{
    if s.unicode_len() == 0 {
        return Ok(None);
    }
    if let Some(t) = parse_rfc3339_secs(s) {
        return Ok(Some(clamp_seconds(t)));
    }
    if let Some(t) = parse_ymd_secs(s) {
        return Ok(Some(clamp_seconds(t)));
    }
    Err(ApiError::InvalidRequest)
}

} // verus!
