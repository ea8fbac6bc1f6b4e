//! Helpers for what the interface shows.

use crate::text::{decimal_text, push_decimal};
use vstd::prelude::*;
use vstd::string::*;

verus! {

/// A duration of `seconds` in words: seconds alone below a minute, minutes
/// and seconds below an hour, hours and minutes from there on.
pub open spec fn duration_text(seconds: nat) -> Seq<char> {
    if seconds < 60 {
        decimal_text(seconds) + "s"@
    } else if seconds < 3600 {
        decimal_text(seconds / 60) + "m "@ + decimal_text(seconds % 60) + "s"@
    } else {
        decimal_text(seconds / 3600) + "h "@ + decimal_text((seconds % 3600) / 60) + "m"@
    }
}

/// Formats a duration given in seconds for reading: `45s`, `2m 30s`,
/// `1h 30m`.
pub fn format_duration(seconds: u64) -> (text: String)
    ensures
        text@ == duration_text(seconds as nat),
{
    let mut text = String::new();
    if seconds < 60 {
        push_decimal(&mut text, seconds);
        text.append("s");
        assert(text@ =~= duration_text(seconds as nat));
    } else if seconds < 3600 {
        push_decimal(&mut text, seconds / 60);
        text.append("m ");
        push_decimal(&mut text, seconds % 60);
        text.append("s");
        assert(text@ =~= duration_text(seconds as nat));
    } else {
        push_decimal(&mut text, seconds / 3600);
        text.append("h ");
        push_decimal(&mut text, (seconds % 3600) / 60);
        text.append("m");
        assert(text@ =~= duration_text(seconds as nat));
    }
    text
}

} // verus!
