//! Points in time and spans of time as plain numbers, and their calendar text as the
//! `time` crate formats it.

use vstd::prelude::*;
use crate::text::digit_char;

verus! {

/// Earliest second, since the Unix epoch, of the dates the `time` crate represents
/// (the start of the year -9999).
pub const MIN_TIMESTAMP: i64 = -377705116800i64;

/// Latest second, since the Unix epoch, of the dates the `time` crate represents
/// (the end of the year 9999).
pub const MAX_TIMESTAMP: i64 = 253402300799i64;

/// Largest UTC offset, in seconds, that the `time` crate represents (25:59:59).
pub const MAX_OFFSET_SECONDS: i32 = 93599i32;

/// A point in time: seconds since the Unix epoch and the UTC offset it is shown in.
#[derive(Debug, Clone, Copy, PartialEq, Eq, Structural)]
pub struct DateTime {
    pub unix_timestamp: i64,
    pub offset_seconds: i32,
}

impl DateTime {
    /// The second, counted from the Unix epoch, that the point shows in its own offset.
    pub open spec fn local_seconds(self) -> int {
        self.unix_timestamp + self.offset_seconds
    }

    /// Whether the point, both in UTC and in its own offset, lies in the years -9999 to
    /// 9999, with an offset of at most 25:59:59 either way.
    pub open spec fn valid(self) -> bool {
        &&& -MAX_OFFSET_SECONDS <= self.offset_seconds <= MAX_OFFSET_SECONDS
        &&& MIN_TIMESTAMP <= self.unix_timestamp <= MAX_TIMESTAMP
        &&& MIN_TIMESTAMP <= self.local_seconds() <= MAX_TIMESTAMP
    }

    /// The hour of the day the point shows in its offset.
    pub open spec fn hour(self) -> nat {
        ((self.local_seconds() % 86400) / 3600) as nat
    }

    /// The minute of the hour the point shows in its offset.
    pub open spec fn minute(self) -> nat {
        ((self.local_seconds() % 3600) / 60) as nat
    }
}

/// A span of time: whole seconds and the nanoseconds beyond them.
#[derive(Debug, Clone, Copy, PartialEq, Eq, Structural)]
pub struct Duration {
    pub seconds: i64,
    pub nanoseconds: i32,
}

/// A number below one hundred as two digits, with a leading zero where needed.
pub open spec fn two_digits(n: nat) -> Seq<char> {
    seq![digit_char(n / 10), digit_char(n % 10)]
}

/// The text that the format description `description` gives for the point in time
/// `unix_timestamp`, shown in the UTC offset of `offset_seconds` seconds.
pub uninterp spec fn formatted_datetime(unix_timestamp: int, offset_seconds: int, description: Seq<char>) -> Seq<char>;

/// The format description of the time of day, `[hour]:[minute]`.
pub open spec fn time_of_day_description() -> Seq<char> {
    seq!['[', 'h', 'o', 'u', 'r', ']', ':', '[', 'm', 'i', 'n', 'u', 't', 'e', ']']
}

/// The format description of the day and month, `[day].[month]`.
pub open spec fn day_month_description() -> Seq<char> {
    seq!['[', 'd', 'a', 'y', ']', '.', '[', 'm', 'o', 'n', 't', 'h', ']']
}

/// Calls `time::OffsetDateTime::format` on the point `dt` (built by
/// `OffsetDateTime::from_unix_timestamp` and moved to its offset by `to_offset` with
/// `UtcOffset::from_whole_seconds`), with the description parsed by
/// `time::format_description::parse`. Claimed: the text is a function of the point, its
/// offset and the description, named `formatted_datetime`; for `[hour]:[minute]` it is
/// the hour (24-hour clock) and the minute the point shows in its offset, each as two
/// zero-padded digits, joined by `:`; for `[day].[month]` it is two zero-padded digits,
/// a `.` and two zero-padded digits. Which day and month those are, is not stated. The
/// descriptions are the two accepted by `requires`, which parse, and the point is valid,
/// so that neither the conversions nor the formatting fail.
#[verifier::external_body]
pub(crate) fn format_datetime(dt: DateTime, description: &str) -> (r: String)
    requires
        dt.valid(),
        description@ == time_of_day_description() || description@ == day_month_description(),
    ensures
        r@ == formatted_datetime(dt.unix_timestamp as int, dt.offset_seconds as int, description@),
        description@ == time_of_day_description() ==> r@ == two_digits(dt.hour()) + seq![':'] + two_digits(dt.minute()),
        description@ == day_month_description() ==> r@.len() == 5 && r@[2] == '.',
{
    let offset = time::UtcOffset::from_whole_seconds(dt.offset_seconds).unwrap();
    let utc = time::OffsetDateTime::from_unix_timestamp(dt.unix_timestamp).unwrap();
    let items = time::format_description::parse(description).unwrap();
    utc.to_offset(offset).format(&items).unwrap()
}

/// Calls `time::OffsetDateTime::now_utc` and keeps its Unix timestamp. Claimed: the point
/// is shown in UTC and lies in the range the `time` crate represents. Which point it is
/// depends on the clock and is not stated.
#[verifier::external_body]
pub(crate) fn now_utc() -> (r: DateTime)
    ensures
        r.offset_seconds == 0,
        r.valid(),
{
    DateTime { unix_timestamp: time::OffsetDateTime::now_utc().unix_timestamp(), offset_seconds: 0 }
}

} // verus!
