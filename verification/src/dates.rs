use vstd::prelude::*;

verus! {

/// Why an input date string was rejected.
#[derive(Clone, Copy, Debug, PartialEq, Eq, Structural)]
pub enum DateError {
    /// The string is not a well-formed RFC3339 date-time.
    NotRfc3339,
}

/// Unix timestamp, in whole seconds, denoted by a well-formed RFC3339
/// date-time string — or nothing when the string is not one. The result
/// depends on the characters alone.
pub uninterp spec fn rfc3339_seconds(s: Seq<char>) -> Option<i64>;

/// Relies on chrono's `DateTime::parse_from_rfc3339`, a pure parser whose
/// result depends only on the input string, and on `DateTime::timestamp`,
/// the parsed instant as whole seconds since the Unix epoch.
#[verifier::external_body]
fn parse_rfc3339(s: &str) -> (r: Result<i64, chrono::ParseError>)
    ensures
        match r {
            Ok(t) => rfc3339_seconds(s@) == Some(t),
            Err(_) => rfc3339_seconds(s@) is None,
        },
{
    chrono::DateTime::parse_from_rfc3339(s).map(|d| d.timestamp())
}

/// The error type chrono's parser reports, opaque to this crate.
#[verifier::external_type_specification]
#[verifier::external_body]
pub struct ExParseError(chrono::ParseError);

/// Parse an RFC3339 date-time into whole seconds since the Unix epoch.
/// Succeeds exactly on the strings that denote an RFC3339 instant.
pub fn parse_rfc3339_seconds(s: &str) -> (r: Result<i64, DateError>)
    ensures
        match r {
            Ok(t) => rfc3339_seconds(s@) == Some(t),
            Err(e) => rfc3339_seconds(s@) is None && e == DateError::NotRfc3339,
        },
{
    match parse_rfc3339(s) {
        Ok(t) => Ok(t),
        Err(_) => Err(DateError::NotRfc3339),
    }
}

/// Relies on chrono's `Utc::now` for the current instant, chrono-tz's
/// Europe/Stockholm zone and chrono's `with_timezone` / `format` for its
/// wall-clock rendering. Returns the instant as whole seconds since the
/// Unix epoch together with its "YYYY-MM-DD HH:MM" label in Stockholm
/// time. The clock makes the result different on every call; nothing can
/// be promised of it.
#[verifier::external_body]
pub fn now_in_stockholm() -> (i64, String) {
    let now = chrono::Utc::now().with_timezone(&chrono_tz::Europe::Stockholm);
    (now.timestamp(), now.format("%Y-%m-%d %H:%M").to_string())
}

/// Signed division truncated toward zero, the rounding whole-day counts
/// use.
pub open spec fn div_trunc(a: int, b: int) -> int
    recommends
        b > 0,
{
    if a >= 0 {
        a / b
    } else {
        -((-a) / b)
    }
}

/// Whole days from `start` to `end` (both in seconds): the signed second
/// difference divided by 86400, truncated toward zero, so partial days in
/// either direction count as zero.
pub open spec fn days_between_spec(start: int, end: int) -> int {
    div_trunc(end - start, 86400)
}

/// Whole days from `start` to `end`, both Unix timestamps in seconds.
pub fn days_between(start: i64, end: i64) -> (r: i64)
    ensures
        r == days_between_spec(start as int, end as int),
{
    let diff: i128 = (end as i128) - (start as i128);
    let q: i128 = match diff.checked_div(86400) {
        Some(v) => v,
        None => 0,
    };
    q as i64
}

/// Competition progress as a whole percentage: the floor of
/// `elapsed / total * 100`. A total of zero or less would leave the
/// fraction undefined; the documented policy is to report zero.
pub open spec fn progress_percentage_spec(elapsed: int, total: int) -> int {
    if total <= 0 {
        0
    } else {
        elapsed * 100 / total
    }
}

/// Competition progress percentage, from whole-day counts.
pub fn progress_percentage(elapsed: i64, total: i64) -> (r: i64)
    requires
        total <= 0 || i64::MIN <= (elapsed as int) * 100 / (total as int) <= i64::MAX,
    ensures
        r == progress_percentage_spec(elapsed as int, total as int),
{
    if total <= 0 {
        return 0;
    }
    let num: i128 = (elapsed as i128) * 100;
    let q: i128 = match num.checked_div_euclid(total as i128) {
        Some(v) => v,
        None => 0,
    };
    q as i64
}

} // verus!
