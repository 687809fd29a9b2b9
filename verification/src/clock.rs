//! Points in time, held as whole seconds since the Unix epoch (UTC), and the
//! calls into `chrono` that read the clock and turn dates into text and back.

use vstd::prelude::*;

verus! {

/// The earliest second that `chrono::DateTime<Utc>` can hold
/// (January 1 of year -262143, 00:00:00).
pub const EARLIEST_TIMESTAMP: i64 = -8334601228800i64;

/// The latest whole second that `chrono::DateTime<Utc>` can hold
/// (December 31 of year 262142, 23:59:59).
pub const LATEST_TIMESTAMP: i64 = 8210266876799i64;

/// Whether `t` seconds since the epoch is a moment that a
/// `chrono::DateTime<Utc>` can represent.
pub open spec fn in_datetime_range(t: int) -> bool {
    EARLIEST_TIMESTAMP <= t <= LATEST_TIMESTAMP
}

/// The text that `chrono` writes for the date of moment `t` under the
/// pattern `%Y-%m-%d` (year, month and day, zero padded).
pub uninterp spec fn ymd_text(t: int) -> Seq<char>;

/// The moment (midnight UTC) of the date that `chrono` reads from `text`
/// under the pattern `%Y-%m-%d`, or `None` where it refuses the text.
pub uninterp spec fn ymd_midnight_of(text: Seq<char>) -> Option<i64>;

/// `chrono::Utc::now`, as a Unix timestamp (`DateTime::timestamp`).
/// The result depends on the system clock; all that is stated is that it
/// is not before the epoch (`Utc::now` panics on a clock that reads a time
/// before 1970) and lies in the range of `DateTime<Utc>`.
#[verifier::external_body]
pub(crate) fn now_timestamp() -> (t: i64)
    ensures
        0 <= t,
        in_datetime_range(t as int),
{
    chrono::Utc::now().timestamp()
}

/// `DateTime::<Utc>::from_timestamp(t, 0)` followed by
/// `format("%Y-%m-%d")`. `from_timestamp` gives `Some` on every `t` in the
/// range of `DateTime<Utc>`, which `requires` asks for, so the `expect`
/// never fires.
#[verifier::external_body]
pub(crate) fn format_ymd(t: i64) -> (r: String)
    requires
        in_datetime_range(t as int),
    ensures
        r@ == ymd_text(t as int),
{
    let d = chrono::DateTime::from_timestamp(t, 0).expect("a moment that DateTime<Utc> holds");
    d.format("%Y-%m-%d").to_string()
}

/// `NaiveDate::parse_from_str(text, "%Y-%m-%d")`, taken at midnight UTC
/// (`and_time(NaiveTime::MIN)`, `and_utc`) and given as a Unix timestamp.
/// The result is named, not spelled out; a date that parses is a
/// `DateTime<Utc>`, so its timestamp lies in that type's range.
#[verifier::external_body]
pub(crate) fn parse_ymd_midnight(text: &str) -> (r: Option<i64>)
    ensures
        r == ymd_midnight_of(text@),
        r matches Some(t) ==> in_datetime_range(t as int),
{
    match chrono::NaiveDate::parse_from_str(text, "%Y-%m-%d") {
        Ok(d) => Some(d.and_time(chrono::NaiveTime::MIN).and_utc().timestamp()),
        Err(_) => None,
    }
}

} // verus!
