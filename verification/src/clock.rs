//! The time of rendering as the page shows it.
//!
//! The calendar is `chrono`'s. The caller reads the clock and hands over
//! the instant as seconds since the epoch together with the local offset
//! from UTC in seconds; turning the two into text is done here.

use vstd::prelude::*;
use crate::failure::Failure;

verus! {

/// The text that `chrono` writes for the instant `unix_seconds`, seen at
/// `offset_seconds` east of UTC, under the strftime pattern `pattern`.
/// `None` where the instant or the offset is out of `chrono`'s range or the
/// pattern is not one that it can write.
pub uninterp spec fn formatted_time(
    unix_seconds: i64,
    offset_seconds: i32,
    pattern: Seq<char>,
) -> Option<Seq<char>>;

/// `chrono::DateTime::format`, on the instant built by
/// `DateTime::from_timestamp` and moved to the zone built by
/// `FixedOffset::east_opt`, written out with `DelayedFormat::write_to`.
/// The text depends on the three arguments alone. An offset of a day or
/// more, either way, is refused by `east_opt`.
#[verifier::external_body]
pub(crate) fn format_time(unix_seconds: i64, offset_seconds: i32, pattern: &str) -> (r: Option<
    String,
>)
    ensures
        match r {
            Some(text) => formatted_time(unix_seconds, offset_seconds, pattern@) == Some(text@),
            None => formatted_time(unix_seconds, offset_seconds, pattern@) is None,
        },
        !(-86_400 < offset_seconds < 86_400) ==> r is None,
{
    let offset = chrono::FixedOffset::east_opt(offset_seconds)?;
    let instant = chrono::DateTime::from_timestamp(unix_seconds, 0)?;
    let mut text = String::new();
    match instant.with_timezone(&offset).format(pattern).write_to(&mut text) {
        Ok(_) => Some(text),
        Err(_) => None,
    }
}

/// The pattern of the time of rendering: weekday, day of the month, month,
/// hour and minute, and the offset from UTC behind `GMT`.
pub open spec fn stamp_pattern() -> Seq<char> {
    "%A, %e %B, %H:%M GMT%z"@
}

/// The time of rendering as the page shows it.
pub open spec fn stamp(unix_seconds: i64, offset_seconds: i32) -> Option<Seq<char>> {
    formatted_time(unix_seconds, offset_seconds, stamp_pattern())
}

/// Writes the time of rendering as the page shows it.
pub fn render_stamp(unix_seconds: i64, offset_seconds: i32) -> (r: Result<String, Failure>)
    ensures
        match r {
            Ok(text) => stamp(unix_seconds, offset_seconds) == Some(text@),
            Err(failure) => failure == Failure::TimeOutOfRange && stamp(
                unix_seconds,
                offset_seconds,
            ) is None,
        },
        !(-86_400 < offset_seconds < 86_400) ==> r is Err,
{
    match format_time(unix_seconds, offset_seconds, "%A, %e %B, %H:%M GMT%z") {
        Some(text) => Ok(text),
        None => Err(Failure::TimeOutOfRange),
    }
}

} // verus!
