//! Timestamps as calendar text.

use vstd::prelude::*;

verus! {

/// Nanoseconds in one second.
pub const NANOS_PER_SECOND: u64 = 1_000_000_000;

/// The UTC date and time, written as year-month-day hour:minute:second, of the
/// instant `seconds` seconds after the Unix epoch.
pub uninterp spec fn utc_text(seconds: i64) -> Seq<char>;

/// `chrono::DateTime::from_timestamp` with no nanoseconds, then
/// `NaiveDateTime::format` with the pattern "%Y-%m-%d %H:%M:%S". An instant
/// that chrono cannot hold is written as the epoch. The text depends on the
/// number of seconds alone, and is known here only by its name, `utc_text`.
#[verifier::external_body]
fn render_utc(seconds: i64) -> (r: String)
    ensures
        r@ == utc_text(seconds),
{
    chrono::DateTime::from_timestamp(seconds, 0)
        .unwrap_or_default()
        .naive_utc()
        .format("%Y-%m-%d %H:%M:%S")
        .to_string()
}

/// The calendar text of a timestamp in nanoseconds: the part of a second is
/// dropped.
pub fn format_timestamp(timestamp: u64) -> (r: String)
    ensures
        r@ == utc_text((timestamp / NANOS_PER_SECOND) as i64),
{
    let seconds: u64 = timestamp / NANOS_PER_SECOND;
    render_utc(seconds as i64)
}

} // verus!
