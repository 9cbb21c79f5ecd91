use clickdown::tui::widgets::comments::{comment_date_query, format_timestamp, wrap_text};

#[test]
fn test_wrap_text() {
    let text = "This is a test comment with multiple words";
    let wrapped = wrap_text(text, 15);
    // Text wraps at word boundaries: "This is a test" | "comment with" | "multiple words"
    assert!(wrapped.len() >= 3);
    for line in &wrapped {
        assert!(line.len() <= 15);
    }
}

#[test]
fn test_wrap_text_empty() {
    let wrapped = wrap_text("", 10);
    assert_eq!(wrapped.len(), 1);
    assert!(wrapped[0].is_empty());
}

#[test]
fn test_format_timestamp() {
    // Test with a known timestamp: 1234567890000 ms = Feb 13, 2009
    let result = format_timestamp(1234567890000);
    assert!(result.contains("2009"));
    assert!(!result.starts_with("Day "));
}

#[test]
fn test_format_timestamp_recent() {
    // Test with a more recent timestamp
    let result = format_timestamp(1700000000000); // Nov 2023
    assert!(result.contains("2023"));
    assert!(!result.is_empty());
}

#[test]
fn test_format_timestamp_with_real_data() {
    // Test with various timestamp formats that ClickUp might return
    let result1 = format_timestamp(1234567890000); // Feb 13, 2009
    assert!(result1.contains("Feb"));
    assert!(result1.contains("2009"));

    let result2 = format_timestamp(1609459200000); // Jan 1, 2021
    assert!(result2.contains("2021"));

    // Test very old timestamp (near epoch)
    let result3 = format_timestamp(-1000);
    // Even negative timestamps get converted to a date near epoch
    assert!(!result3.is_empty());
}

#[test]
fn wrap_text_exact_lines() {
    assert_eq!(
        wrap_text("This is a test comment with multiple words", 15),
        vec!["This is a test", "comment with", "multiple words"]
    );
    assert_eq!(wrap_text("  spaced\t\nout  ", 80), vec!["spaced out"]);
    assert_eq!(wrap_text("averyveryverylongword x", 5), vec!["averyveryverylongword", "x"]);
    assert_eq!(wrap_text("a b", 0), vec!["a", "b"]);
    assert_eq!(wrap_text("   ", 3), vec![""]);
}

#[test]
fn format_timestamp_out_of_range() {
    assert_eq!(format_timestamp(i64::MAX), "Unknown date");
}

#[test]
fn format_timestamp_range_edges() {
    assert_eq!(format_timestamp(i64::MIN), "Unknown date");
    assert_eq!(format_timestamp(8_210_266_877_000_000), "Unknown date");
    assert_ne!(format_timestamp(8_210_266_876_799_999), "Unknown date");
    assert!(format_timestamp(0).contains("19"));
}

#[test]
fn comment_date_query_rounds_toward_zero() {
    assert_eq!(comment_date_query(1_234_567_890_123), (1_234_567_890, "%b %d, %Y %H:%M"));
    assert_eq!(comment_date_query(-1_000), (-1, "%b %d, %Y %H:%M"));
    assert_eq!(comment_date_query(-999), (0, "%b %d, %Y %H:%M"));
}

#[test]
fn wrapping_is_greedy_and_leaves_no_empty_line() {
    let text = "one two three four five six seven eight nine ten eleven twelve";
    for width in [0usize, 3, 5, 9, 15, 80] {
        let lines = wrap_text(text, width);
        assert!(lines.iter().all(|l| !l.is_empty()));
        for pair in lines.windows(2) {
            assert!(pair[0].len() + 1 + pair[1].len() > width);
        }
    }
    assert_eq!(wrap_text(" \t\n ", 10), vec![""]);
    assert_eq!(wrap_text("", 10), vec![""]);
}
