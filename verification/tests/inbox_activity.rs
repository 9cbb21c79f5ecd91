use clickdown::models::inbox_activity::{
    deduplicate_activities, due_date_query, format_due_date, merge_activity_sources, truncate_text, ActivityType,
    InboxActivity,
};

#[test]
fn test_activity_type_icon() {
    assert_eq!(ActivityType::Assignment.icon(), "📋");
    assert_eq!(ActivityType::Comment.icon(), "💬");
    assert_eq!(ActivityType::StatusChange.icon(), "🔄");
    assert_eq!(ActivityType::DueDate.icon(), "⏰");
}

#[test]
fn test_activity_type_label() {
    assert_eq!(ActivityType::Assignment.label(), "Assigned");
    assert_eq!(ActivityType::Comment.label(), "Comment");
    assert_eq!(ActivityType::StatusChange.label(), "Status");
    assert_eq!(ActivityType::DueDate.label(), "Due Date");
}

#[test]
fn test_create_assignment_activity() {
    let activity = InboxActivity::assignment(
        "task_123".to_string(),
        "Review PR".to_string(),
        "ws_456".to_string(),
        1704067200000,
        Some("Open".to_string()),
    );

    assert_eq!(activity.id, "assignment_task_123");
    assert_eq!(activity.activity_type, ActivityType::Assignment);
    assert!(activity.title.contains("Review PR"));
    assert_eq!(activity.task_id, Some("task_123".to_string()));
}

#[test]
fn test_create_comment_activity() {
    let activity = InboxActivity::comment(
        "comment_789".to_string(),
        "task_123".to_string(),
        "Review PR".to_string(),
        "ws_456".to_string(),
        1704067200000,
        "Looks good! Just a few minor changes needed.".to_string(),
    );

    assert_eq!(activity.id, "comment_comment_789");
    assert_eq!(activity.activity_type, ActivityType::Comment);
    assert!(activity.title.contains("Review PR"));
    assert_eq!(activity.comment_id, Some("comment_789".to_string()));
}

#[test]
fn test_create_status_change_activity() {
    let activity = InboxActivity::status_change(
        "task_123".to_string(),
        "Review PR".to_string(),
        "ws_456".to_string(),
        1704067200000,
        "Open".to_string(),
        "In Progress".to_string(),
    );

    assert!(activity.id.starts_with("status_task_123_"));
    assert_eq!(activity.activity_type, ActivityType::StatusChange);
    assert_eq!(activity.previous_status, Some("Open".to_string()));
    assert_eq!(activity.new_status, Some("In Progress".to_string()));
}

#[test]
fn test_create_due_date_activity() {
    let now = chrono::Utc::now().timestamp_millis();
    let due_date = now + (7 * 24 * 60 * 60 * 1000); // 7 days from now

    let activity = InboxActivity::due_date(
        "task_123".to_string(),
        "Review PR".to_string(),
        "ws_456".to_string(),
        due_date,
    );

    assert_eq!(activity.id, "due_task_123");
    assert_eq!(activity.activity_type, ActivityType::DueDate);
    assert_eq!(activity.due_date, Some(due_date));
    assert!(activity.title.contains("Review PR"));
}

#[test]
fn test_truncate_text() {
    assert_eq!(truncate_text("Short text", 20), "Short text");
    assert_eq!(truncate_text("This is a longer text that should be truncated", 20), "This is a longer ...");
    assert_eq!(truncate_text("  Trimmed and truncated  ", 10), "Trimmed...");
}

#[test]
fn test_assignment_id_uniqueness() {
    // Verify assignment IDs are unique per task
    let activity1 = InboxActivity::assignment(
        "task_123".to_string(),
        "Task 1".to_string(),
        "ws_456".to_string(),
        1704067200000,
        None,
    );
    let activity2 = InboxActivity::assignment(
        "task_456".to_string(),
        "Task 2".to_string(),
        "ws_456".to_string(),
        1704067200000,
        None,
    );

    assert_ne!(activity1.id, activity2.id);
    assert_eq!(activity1.id, "assignment_task_123");
    assert_eq!(activity2.id, "assignment_task_456");
}

#[test]
fn test_comment_with_long_text_truncation() {
    let long_comment = "This is a very long comment that should be truncated to fit within the display constraints. ".repeat(5);
    let activity = InboxActivity::comment(
        "comment_789".to_string(),
        "task_123".to_string(),
        "Review PR".to_string(),
        "ws_456".to_string(),
        1704067200000,
        long_comment.clone(),
    );

    assert!(activity.description.len() <= 103); // 100 chars + "..."
    assert!(activity.description.ends_with("..."));
}

#[test]
fn test_status_change_id_includes_timestamp() {
    let activity1 = InboxActivity::status_change(
        "task_123".to_string(),
        "Task".to_string(),
        "ws_456".to_string(),
        1704067200000,
        "Open".to_string(),
        "Closed".to_string(),
    );
    let activity2 = InboxActivity::status_change(
        "task_123".to_string(),
        "Task".to_string(),
        "ws_456".to_string(),
        1704067300000, // Different timestamp
        "Open".to_string(),
        "In Progress".to_string(),
    );

    // IDs should be different due to different timestamps
    assert_ne!(activity1.id, activity2.id);
    assert!(activity1.id.starts_with("status_task_123_"));
    assert!(activity2.id.starts_with("status_task_123_"));
}

#[test]
fn test_activity_equality() {
    let activity1 = InboxActivity::assignment(
        "task_123".to_string(),
        "Task".to_string(),
        "ws_456".to_string(),
        1704067200000,
        None,
    );
    let activity2 = InboxActivity::assignment(
        "task_123".to_string(),
        "Task".to_string(),
        "ws_456".to_string(),
        1704067200000,
        None,
    );
    let activity3 = InboxActivity::assignment(
        "task_456".to_string(),
        "Task".to_string(),
        "ws_456".to_string(),
        1704067200000,
        None,
    );

    assert_eq!(activity1, activity2);
    assert_ne!(activity1, activity3);
}

#[test]
fn test_optional_fields_default() {
    let activity = InboxActivity::assignment(
        "task_123".to_string(),
        "Task".to_string(),
        "ws_456".to_string(),
        1704067200000,
        None,
    );

    assert_eq!(activity.comment_id, None);
    assert_eq!(activity.previous_status, None);
    assert_eq!(activity.due_date, None);
    assert_eq!(activity.task_name, "Task".to_string()); // task_name is set from parameter
}

#[test]
fn test_format_due_date_invalid() {
    // Test with a timestamp that would overflow
    let result = format_due_date(i64::MAX);
    assert_eq!(result, "Unknown date");
}

#[test]
fn test_deduplicate_removes_exact_duplicates() {
    // Create two identical activities
    let activity1 = InboxActivity::assignment(
        "task_123".to_string(),
        "Task".to_string(),
        "ws_456".to_string(),
        1704067200000,
        None,
    );
    let activity2 = activity1.clone();

    let activities = vec![activity1.clone(), activity2.clone()];
    let result = deduplicate_activities(activities);

    // Should have only one activity
    assert_eq!(result.len(), 1);
    assert_eq!(result[0].id, "assignment_task_123");
}

#[test]
fn test_deduplicate_keeps_most_recent() {
    // Create two activities with same ID but different timestamps
    let older = InboxActivity::assignment(
        "task_123".to_string(),
        "Task".to_string(),
        "ws_456".to_string(),
        1704067200000, // Older
        Some("Open".to_string()),
    );
    let newer = InboxActivity::assignment(
        "task_123".to_string(),
        "Task".to_string(),
        "ws_456".to_string(),
        1704067300000, // Newer
        Some("In Progress".to_string()),
    );

    // Add in reverse order to test that order doesn't matter
    let activities = vec![newer.clone(), older.clone()];
    let result = deduplicate_activities(activities);

    // Should keep the newer one
    assert_eq!(result.len(), 1);
    assert_eq!(result[0].timestamp, 1704067300000);
    assert_eq!(result[0].new_status, Some("In Progress".to_string()));
}

#[test]
fn test_deduplicate_preserves_different_activities() {
    // Create activities with different IDs
    let assignment = InboxActivity::assignment(
        "task_123".to_string(),
        "Task 1".to_string(),
        "ws_456".to_string(),
        1704067200000,
        None,
    );
    let comment = InboxActivity::comment(
        "comment_789".to_string(),
        "task_456".to_string(),
        "Task 2".to_string(),
        "ws_456".to_string(),
        1704067300000,
        "Test comment".to_string(),
    );

    let activities = vec![assignment.clone(), comment.clone()];
    let result = deduplicate_activities(activities);

    // Should keep both
    assert_eq!(result.len(), 2);
}

#[test]
fn test_deduplicate_sorts_by_timestamp() {
    // Create activities with different timestamps
    let oldest = InboxActivity::assignment(
        "task_1".to_string(),
        "Task 1".to_string(),
        "ws_1".to_string(),
        1704067200000,
        None,
    );
    let middle = InboxActivity::assignment(
        "task_2".to_string(),
        "Task 2".to_string(),
        "ws_1".to_string(),
        1704067300000,
        None,
    );
    let newest = InboxActivity::assignment(
        "task_3".to_string(),
        "Task 3".to_string(),
        "ws_1".to_string(),
        1704067400000,
        None,
    );

    // Add in random order
    let activities = vec![oldest.clone(), newest.clone(), middle.clone()];
    let result = deduplicate_activities(activities);

    // Should be sorted newest first
    assert_eq!(result.len(), 3);
    assert_eq!(result[0].timestamp, 1704067400000);
    assert_eq!(result[1].timestamp, 1704067300000);
    assert_eq!(result[2].timestamp, 1704067200000);
}

#[test]
fn test_deduplicate_empty_input() {
    let activities: Vec<InboxActivity> = vec![];
    let result = deduplicate_activities(activities);
    assert_eq!(result.len(), 0);
}

#[test]
fn test_merge_activity_sources() {
    // Create two sources with overlapping activities
    let source1 = vec![
        InboxActivity::assignment(
            "task_1".to_string(),
            "Task 1".to_string(),
            "ws_1".to_string(),
            1704067200000,
            None,
        ),
        InboxActivity::assignment(
            "task_2".to_string(),
            "Task 2".to_string(),
            "ws_1".to_string(),
            1704067300000,
            None,
        ),
    ];

    let source2 = vec![
        InboxActivity::assignment(
            "task_2".to_string(),
            "Task 2".to_string(),
            "ws_1".to_string(),
            1704067400000, // Newer version of task_2
            None,
        ),
        InboxActivity::assignment(
            "task_3".to_string(),
            "Task 3".to_string(),
            "ws_1".to_string(),
            1704067500000,
            None,
        ),
    ];

    let result = merge_activity_sources(vec![source1, source2]);

    // Should have 3 unique activities (task_1, task_2, task_3)
    assert_eq!(result.len(), 3);

    // task_2 should be the newer version
    let task2 = result.iter().find(|a| a.task_id == Some("task_2".to_string())).unwrap();
    assert_eq!(task2.timestamp, 1704067400000);

    // Should be sorted newest first
    assert_eq!(result[0].timestamp, 1704067500000); // task_3
    assert_eq!(result[1].timestamp, 1704067400000); // task_2 (newer)
    assert_eq!(result[2].timestamp, 1704067200000); // task_1
}

#[test]
fn test_merge_empty_sources() {
    let result = merge_activity_sources(vec![]);
    assert_eq!(result.len(), 0);

    let result = merge_activity_sources(vec![vec![], vec![]]);
    assert_eq!(result.len(), 0);
}


#[test]
fn due_date_at_titles_by_days_left() {
    let day: i64 = 24 * 60 * 60 * 1000;
    let now: i64 = 1_700_000_000_000;
    let mk = |due: i64| {
        InboxActivity::due_date_at(
            "t".to_string(),
            "Name".to_string(),
            "ws".to_string(),
            due,
            now,
            "Nov 14, 2023".to_string(),
        )
    };
    assert_eq!(mk(now - day).title, "⏰ Task overdue: Name");
    assert_eq!(mk(now - day + 1).title, "⏰ Task due today: Name");
    assert_eq!(mk(now + day - 1).title, "⏰ Task due today: Name");
    assert_eq!(mk(now + 3 * day).title, "⏰ Task due in 3 days: Name");
    assert_eq!(mk(now + 4 * day).title, "⏰ Task due soon: Name");
    assert_eq!(mk(now).timestamp, now);
    assert_eq!(mk(now).description, "Nov 14, 2023");
}

#[test]
fn deduplicate_is_idempotent_on_example() {
    let a = InboxActivity::assignment("1".into(), "A".into(), "w".into(), 10, None);
    let b = InboxActivity::assignment("1".into(), "A".into(), "w".into(), 30, None);
    let c = InboxActivity::assignment("2".into(), "B".into(), "w".into(), 20, None);
    let once = deduplicate_activities(vec![a, b, c]);
    let twice = deduplicate_activities(once.clone());
    assert_eq!(once, twice);
    assert_eq!(once.len(), 2);
    assert_eq!(once[0].timestamp, 30);
}

#[test]
fn truncate_text_edge_lengths() {
    assert_eq!(truncate_text("abc", 3), "abc");
    assert_eq!(truncate_text("abcd", 3), "...");
    assert_eq!(truncate_text("   ", 5), "");
}

#[test]
fn format_due_date_range_edges() {
    // Past chrono's last representable second, and before its first.
    assert_eq!(format_due_date(8_210_266_877_000_000), "Unknown date");
    assert_eq!(format_due_date(-8_334_601_228_801_000), "Unknown date");
    // Milliseconds round toward zero, so this is still the first second.
    assert_ne!(format_due_date(-8_334_601_228_800_999), "Unknown date");
    assert_ne!(format_due_date(8_210_266_876_799_000), "Unknown date");
}

#[test]
fn due_date_query_rounds_toward_zero() {
    assert_eq!(due_date_query(1_700_000_000_999), (1_700_000_000, "%b %d, %Y"));
    assert_eq!(due_date_query(-1_500), (-1, "%b %d, %Y"));
    assert_eq!(due_date_query(999), (0, "%b %d, %Y"));
}

#[test]
fn merge_agrees_with_deduplicating_the_concatenation() {
    let item = |task: &str, ts: i64| {
        InboxActivity::assignment(task.to_string(), task.to_string(), "ws".to_string(), ts, None)
    };
    let s1 = vec![item("a", 10), item("b", 30), item("c", 20)];
    let s2 = vec![item("b", 40), item("d", 20), item("a", 5)];
    let merged = merge_activity_sources(vec![s1.clone(), s2.clone()]);
    let mut all = s1.clone();
    all.extend(s2.clone());
    let flat = deduplicate_activities(all);
    assert_eq!(merged.len(), flat.len());
    let stamps = |v: &Vec<InboxActivity>| v.iter().map(|a| a.timestamp).collect::<Vec<_>>();
    assert_eq!(stamps(&merged), stamps(&flat));
    assert_eq!(stamps(&merged), vec![40, 20, 20, 10]);
    for a in &merged {
        assert!(flat.iter().any(|b| b.id == a.id && b.timestamp == a.timestamp));
    }
    assert!(merge_activity_sources(vec![]).is_empty());
    assert!(merge_activity_sources(vec![vec![], vec![]]).is_empty());
}
