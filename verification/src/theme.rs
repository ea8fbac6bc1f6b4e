//! Texts and symbols that label what is shown.

use crate::text::same_text;
use vstd::prelude::*;
use vstd::string::*;

verus! {

/// The symbol shown for a status word. Words that mean well share one
/// symbol, as do those that mean failure, work in progress, and caution;
/// any other word gets the neutral symbol.
pub open spec fn status_icon_for(status: Seq<char>) -> Seq<char> {
    if status == "online"@ || status == "active"@ || status == "complete"@ {
        "✅"@
    } else if status == "offline"@ || status == "inactive"@ || status == "error"@ {
        "❌"@
    } else if status == "scanning"@ || status == "pending"@ || status == "loading"@ {
        "🔄"@
    } else if status == "warning"@ || status == "throttled"@ {
        "⚠️"@
    } else {
        "⚪"@
    }
}

/// The symbol shown for the status word `status`.
pub fn status_icon(status: &str) -> (icon: &'static str)
    ensures
        icon@ == status_icon_for(status@),
{
    if same_text(status, "online") || same_text(status, "active") || same_text(
        status,
        "complete",
    ) {
        "✅"
    } else if same_text(status, "offline") || same_text(status, "inactive") || same_text(
        status,
        "error",
    ) {
        "❌"
    } else if same_text(status, "scanning") || same_text(status, "pending") || same_text(
        status,
        "loading",
    ) {
        "🔄"
    } else if same_text(status, "warning") || same_text(status, "throttled") {
        "⚠️"
    } else {
        "⚪"
    }
}

/// A label: the icon, a space, the text.
pub fn with_icon(icon: &str, content: &str) -> (label: String)
    ensures
        label@ == icon@ + " "@ + content@,
{
    let mut label = String::from_str(icon);
    label.append(" ");
    label.append(content);
    label
}

} // verus!
