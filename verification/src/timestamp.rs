//! Block times as text: UTC, second precision, `YYYY-MM-DD HH:MM:SS`.

use vstd::prelude::*;

verus! {

/// The UTC calendar text of a number of seconds since the epoch, or `None`
/// where the calendar cannot represent that instant.
pub uninterp spec fn utc_timestamp_text(secs: int) -> Option<Seq<char>>;

/// Calls `chrono::DateTime::from_timestamp` with no nanoseconds, and on the
/// instant it gives `format("%Y-%m-%d %H:%M:%S")`. Trusted: the outcome is
/// `utc_timestamp_text` of the seconds, `None` where chrono reports the
/// seconds as out of its range.
#[verifier::external_body]
fn format_utc(secs: i64) -> (r: Option<String>)
    ensures
        match r {
            Some(text) => utc_timestamp_text(secs as int) == Some(text@),
            None => utc_timestamp_text(secs as int) is None,
        },
{
    match chrono::DateTime::from_timestamp(secs, 0) {
        Some(instant) => Some(instant.format("%Y-%m-%d %H:%M:%S").to_string()),
        None => None,
    }
}

/// The text of a block time that the calendar can represent.
pub fn get_timestamp(timestamp: i64) -> (text: String)
    requires
        utc_timestamp_text(timestamp as int) is Some,
    ensures
        Some(text@) == utc_timestamp_text(timestamp as int),
{
    match format_utc(timestamp) {
        Some(text) => text,
        None => String::new(),
    }
}

/// The text of a block time, or `None` where the calendar cannot represent it.
pub fn checked_timestamp(timestamp: i64) -> (r: Option<String>)
    ensures
        match r {
            Some(text) => utc_timestamp_text(timestamp as int) == Some(text@),
            None => utc_timestamp_text(timestamp as int) is None,
        },
{
    match format_utc(timestamp) {
        Some(_) => Some(get_timestamp(timestamp)),
        None => None,
    }
}

} // verus!
