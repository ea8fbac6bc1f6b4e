use btc_toolkit::text::{decimal, same_text};
use btc_toolkit::theme::{status_icon, with_icon};
use btc_toolkit::ui_helpers::format_duration;

#[test]
fn durations_in_words() {
    assert_eq!(format_duration(0), "0s");
    assert_eq!(format_duration(45), "45s");
    assert_eq!(format_duration(59), "59s");
    assert_eq!(format_duration(60), "1m 0s");
    assert_eq!(format_duration(150), "2m 30s");
    assert_eq!(format_duration(3599), "59m 59s");
    assert_eq!(format_duration(3600), "1h 0m");
    assert_eq!(format_duration(5400), "1h 30m");
    assert_eq!(format_duration(86399), "23h 59m");
    assert_eq!(format_duration(u64::MAX), "5124095576030431h 0m");
}

#[test]
fn decimal_numerals() {
    assert_eq!(decimal(0), "0");
    assert_eq!(decimal(7), "7");
    assert_eq!(decimal(10), "10");
    assert_eq!(decimal(1234567890), "1234567890");
    assert_eq!(decimal(u64::MAX), u64::MAX.to_string());
    for n in 0u64..1200 {
        assert_eq!(decimal(n), n.to_string());
    }
}

#[test]
fn texts_compare_by_their_characters() {
    assert!(same_text("", ""));
    assert!(same_text("abc", "abc"));
    assert!(!same_text("abc", "abd"));
    assert!(!same_text("abc", "ab"));
}

#[test]
fn status_icons() {
    for word in ["online", "active", "complete"] {
        assert_eq!(status_icon(word), "✅");
    }
    for word in ["offline", "inactive", "error"] {
        assert_eq!(status_icon(word), "❌");
    }
    for word in ["scanning", "pending", "loading"] {
        assert_eq!(status_icon(word), "🔄");
    }
    for word in ["warning", "throttled"] {
        assert_eq!(status_icon(word), "⚠️");
    }
    for word in ["", "Online", "unknown", "done"] {
        assert_eq!(status_icon(word), "⚪");
    }
}

#[test]
fn label_with_icon() {
    assert_eq!(with_icon("✅", "Online"), "✅ Online");
    assert_eq!(with_icon("", "x"), " x");
    assert_eq!(with_icon("!", ""), "! ");
}
