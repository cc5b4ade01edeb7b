//! The text of the playback position.
use vstd::prelude::*;
use vstd::string::StringExecFns;

use crate::text::{decimal, decimal_two_digits, push_decimal, push_two_digits};

verus! {

/// The text of a duration of `seconds` whole seconds: the minutes, a
/// ratio sign, and the seconds padded to two digits.
pub open spec fn minute_sec_text(seconds: nat) -> Seq<char> {
    decimal(seconds / 60) + seq!['\u{2236}'] + decimal_two_digits(seconds % 60)
}

/// Writes `seconds` in a `MM∶SS` format with padding for SS.
pub fn format_minute_sec(seconds: u64) -> (r: String)
    ensures
        r@ == minute_sec_text(seconds as nat),
{
    let minutes_display = seconds / 60;
    let seconds_display = seconds % 60;
    let mut out = String::new();
    push_decimal(&mut out, minutes_display);
    proof {
        reveal_strlit("\u{2236}");
    }
    out.append("\u{2236}");
    push_two_digits(&mut out, seconds_display);
    out
}

/// Displays a clock time of `clock_time` nanoseconds in a `MM∶SS` format
/// with padding for SS; the fraction of a second is dropped.
pub fn format_clock_time_minute_sec(clock_time: u64) -> (r: String)
    ensures
        r@ == minute_sec_text((clock_time / 1_000_000_000) as nat),
{
    format_minute_sec(clock_time / 1_000_000_000)
}

} // verus!
