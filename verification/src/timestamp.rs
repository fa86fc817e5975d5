//! The time of day at which a frame was captured, as text.

use crate::visitor::PacketHeader;
use chrono::NaiveDateTime;
use vstd::prelude::*;
use vstd::string::StringExecFns;

verus! {

/// The number of microseconds from which on a capture time is no time: a
/// second has a million of them, and a leap second is counted as the second
/// million of the second before it.
pub const MICROSECONDS_LIMIT: i64 = 2_000_000;

/// The pattern of a capture time: hours, minutes and seconds in two digits
/// each, and six digits of the fraction of the second.
pub open spec fn time_pattern() -> Seq<char> {
    "%H:%M:%S%.6f"@
}

/// What stands for a capture time that is no time.
pub open spec fn invalid_label() -> Seq<char> {
    "<invalid timestamp>"@
}

/// The text of the time that lies `nanos` nanoseconds behind the second
/// `secs` of the epoch, under `pattern`; `None` where there is no such time.
pub uninterp spec fn formatted_time(secs: int, nanos: int, pattern: Seq<char>) -> Option<Seq<char>>;

/// Makes a time of `secs` and `nanos` with
/// `chrono::NaiveDateTime::from_timestamp_opt` and, where there is one, its
/// text with `chrono::NaiveDateTime::format`. The contract claims that the
/// text depends on the three arguments alone.
#[verifier::external_body]
#[allow(deprecated)]
fn format_time(secs: i64, nanos: u32, pattern: &str) -> (r: Option<String>)
    requires
        nanos < 2_000_000_000,
        pattern@ == time_pattern(),
    ensures
        match r {
            Some(text) => formatted_time(secs as int, nanos as int, pattern@) == Some(text@),
            None => formatted_time(secs as int, nanos as int, pattern@) is None,
        },
{
    match NaiveDateTime::from_timestamp_opt(secs, nanos) {
        Some(time) => Some(time.format(pattern).to_string()),
        None => None,
    }
}

/// The label of a capture time: its text, or the mark of a time that is
/// none.
pub open spec fn label_of(formatted: Option<Seq<char>>) -> Seq<char> {
    match formatted {
        Some(text) => text,
        None => invalid_label(),
    }
}

/// The label of the capture time `usec` microseconds behind the second
/// `secs`.
pub open spec fn capture_time_label(secs: i64, usec: i64) -> Seq<char> {
    if 0 <= usec < MICROSECONDS_LIMIT {
        label_of(formatted_time(secs as int, usec * 1000, time_pattern()))
    } else {
        invalid_label()
    }
}

/// The label for a capture time, given its text where it has one.
pub fn time_label(formatted: Option<String>) -> (r: String)
    ensures
        r@ == label_of(
            match formatted {
                Some(text) => Some(text@),
                None => None,
            },
        ),
{
    match formatted {
        Some(text) => text,
        None => String::from_str("<invalid timestamp>"),
    }
}

impl PacketHeader {
    /// The time of day of the capture as text, or the mark of a time that is
    /// none where the microseconds are not those of a second.
    pub fn time_of_day(&self) -> (r: String)
        ensures
            r@ == capture_time_label(self.ts_sec, self.ts_usec),
    {
        if self.ts_usec < 0 || self.ts_usec >= MICROSECONDS_LIMIT {
            return time_label(None);
        }
        let nanos: u32 = (self.ts_usec * 1000) as u32;
        time_label(format_time(self.ts_sec, nanos, "%H:%M:%S%.6f"))
    }
}

} // verus!
