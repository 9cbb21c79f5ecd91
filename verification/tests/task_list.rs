use clickdown::models::task::{Priority, Task, TaskStatus};
use clickdown::tui::widgets::task_list::{get_priority_indicator, GroupedTaskList, ListRow};

fn make_task(id: &str, status_group: Option<&str>, updated_at: Option<i64>) -> Task {
    Task {
        id: id.to_string(),
        name: format!("Task {}", id),
        status: Some(TaskStatus {
            id: None,
            status: "test".to_string(),
            color: None,
            type_field: None,
            orderindex: None,
            status_group: status_group.map(|s| s.to_string()),
        }),
        updated_at,
        ..Default::default()
    }
}

#[test]
fn test_from_tasks_groups_correctly() {
    let tasks = vec![
        make_task("t1", Some("todo"), Some(1000)),
        make_task("t2", Some("in_progress"), Some(2000)),
        make_task("t3", Some("done"), Some(1500)),
        make_task("t4", Some("in_progress"), Some(1000)),
    ];

    let grouped = GroupedTaskList::from_tasks(tasks);
    let rows = grouped.rows();

    // Expect: IN_PROGRESS header, t2, t4, TODO header, t1, DONE header, t3
    assert_eq!(rows.len(), 7);

    // First group: In Progress (highest priority)
    assert!(matches!(&rows[0], ListRow::Header { label, .. } if label.contains("IN_PROGRESS")));
    assert!(matches!(&rows[1], ListRow::Task(t) if t.id == "t2"));
    assert!(matches!(&rows[2], ListRow::Task(t) if t.id == "t4"));

    // Second group: Todo
    assert!(matches!(&rows[3], ListRow::Header { label, .. } if label.contains("TODO")));
    assert!(matches!(&rows[4], ListRow::Task(t) if t.id == "t1"));

    // Third group: Done
    assert!(matches!(&rows[5], ListRow::Header { label, .. } if label.contains("DONE")));
    assert!(matches!(&rows[6], ListRow::Task(t) if t.id == "t3"));
}

#[test]
fn test_from_tasks_skips_empty_groups() {
    let tasks = vec![
        make_task("t1", Some("done"), Some(1000)),
        make_task("t2", Some("todo"), Some(1000)),
    ];

    let grouped = GroupedTaskList::from_tasks(tasks);
    let rows = grouped.rows();

    // Only Todo and Done groups (no In Progress or Other)
    assert_eq!(rows.len(), 4);
    assert!(matches!(&rows[0], ListRow::Header { label, .. } if label.contains("TODO")));
    assert!(matches!(&rows[2], ListRow::Header { label, .. } if label.contains("DONE")));
}

#[test]
fn test_from_tasks_empty_list() {
    let tasks: Vec<Task> = vec![];
    let grouped = GroupedTaskList::from_tasks(tasks);
    assert!(grouped.rows().is_empty());
    assert!(grouped.selected_task().is_none());
}

#[test]
fn test_select_next_skips_headers() {
    let tasks = vec![
        make_task("t1", Some("in_progress"), Some(1000)),
        make_task("t2", Some("todo"), Some(1000)),
    ];

    let mut grouped = GroupedTaskList::from_tasks(tasks);

    // t1 is selected (first task in In Progress group)
    assert!(matches!(grouped.selected_task(), Some(t) if t.id == "t1"));

    // Move next — should skip Todo header and select t2
    grouped.select_next();
    assert!(matches!(grouped.selected_task(), Some(t) if t.id == "t2"));
}

#[test]
fn test_select_previous_skips_headers_and_wraps() {
    let tasks = vec![
        make_task("t1", Some("in_progress"), Some(1000)),
        make_task("t2", Some("todo"), Some(1000)),
    ];

    let mut grouped = GroupedTaskList::from_tasks(tasks);

    // Move next to t2
    grouped.select_next();
    assert!(matches!(grouped.selected_task(), Some(t) if t.id == "t2"));

    // Move previous — should skip Todo->Done boundary (just In Progress header)
    // and go back to t1
    grouped.select_previous();
    assert!(matches!(grouped.selected_task(), Some(t) if t.id == "t1"));

    // Move previous from first task — should wrap to last task (t2)
    grouped.select_previous();
    assert!(matches!(grouped.selected_task(), Some(t) if t.id == "t2"));
}

#[test]
fn test_selected_task_none_on_header() {
    let tasks = vec![make_task("t1", Some("todo"), Some(1000))];
    let mut grouped = GroupedTaskList::from_tasks(tasks);

    // t1 is selected
    assert!(grouped.selected_task().is_some());

    // Manually select the header (index 0)
    grouped.select(Some(0));
    assert!(grouped.selected_task().is_none());

    // select_next should still work and select t1
    grouped.select_next();
    assert!(matches!(grouped.selected_task(), Some(t) if t.id == "t1"));
}

#[test]
fn test_select_first_skips_headers() {
    let tasks = vec![
        make_task("t1", Some("in_progress"), Some(2000)),
        make_task("t2", Some("todo"), Some(1000)),
    ];

    let mut grouped = GroupedTaskList::new();
    // Start with no selection
    assert!(grouped.selected_task().is_none());

    grouped = GroupedTaskList::from_tasks(tasks);
    // from_tasks calls select_first internally, so t1 should be selected
    assert!(matches!(grouped.selected_task(), Some(t) if t.id == "t1"));
}

#[test]
fn test_single_group_list() {
    let tasks = vec![
        make_task("t1", Some("todo"), Some(2000)),
        make_task("t2", Some("todo"), Some(1000)),
    ];

    let grouped = GroupedTaskList::from_tasks(tasks);
    let rows = grouped.rows();

    // One header + two tasks
    assert_eq!(rows.len(), 3);
    assert!(matches!(&rows[0], ListRow::Header { label, count } if label.contains("TODO") && *count == 2));
    assert!(matches!(&rows[1], ListRow::Task(t) if t.id == "t1"));
    assert!(matches!(&rows[2], ListRow::Task(t) if t.id == "t2"));
}

#[test]
fn test_wrapping_past_last_task() {
    let tasks = vec![
        make_task("t1", Some("in_progress"), Some(1000)),
        make_task("t2", Some("todo"), Some(1000)),
    ];

    let mut grouped = GroupedTaskList::from_tasks(tasks);
    // t1 selected
    grouped.select_next(); // t2 selected

    // From t2, next should wrap to t1 (skipping headers)
    grouped.select_next();
    assert!(matches!(grouped.selected_task(), Some(t) if t.id == "t1"));
}

#[test]
fn test_fallback_group() {
    let tasks = vec![
        make_task("t1", Some("unknown_status"), Some(1000)),
        make_task("t2", None, Some(1000)),
    ];

    let grouped = GroupedTaskList::from_tasks(tasks);
    let rows = grouped.rows();

    // Each unknown status gets its own header (no longer collapsed into "OTHER")
    // t1 has status_group="unknown_status", t2 has status_group=None → resolves to "test"
    // Both have Fallback priority so they sort alphabetically: "test" < "unknown_status"
    assert_eq!(rows.len(), 4); // 2 headers + 2 tasks
    assert!(matches!(&rows[0], ListRow::Header { label, .. } if label.contains("TEST")));
    assert!(matches!(&rows[2], ListRow::Header { label, .. } if label.contains("UNKNOWN_STATUS")));
}

#[test]
fn test_grouping_uses_status_fallback_and_preserves_distinct_groups() {


    fn make_task_with_status(id: &str, status_name: &str, updated_at: i64) -> Task {
        Task {
            id: id.to_string(),
            name: format!("Task {}", id),
            status: Some(TaskStatus {
                id: None,
                status: status_name.to_string(),
                color: None,
                type_field: None,
                orderindex: None,
                status_group: None, // status_group is None, only status.status is set
            }),
            updated_at: Some(updated_at),
            ..Default::default()
        }
    }

    let tasks = vec![
        make_task_with_status("t1", "todo", 1000),
        make_task_with_status("t2", "in progress", 2000),
        make_task_with_status("t3", "done", 1500),
        make_task_with_status("t4", "review", 1800),
        make_task_with_status("t5", "blocked", 900),
    ];

    let grouped = GroupedTaskList::from_tasks(tasks);
    let rows = grouped.rows();

    // Should have 5 distinct status headers, NOT collapsed into one "OTHER"
    let header_count = rows
        .iter()
        .filter(|r| matches!(r, ListRow::Header { .. }))
        .count();

    assert_eq!(
        header_count, 5,
        "Expected 5 distinct status headers (IN PROGRESS, REVIEW, TODO, DONE, BLOCKED), \
         not collapsed into a single OTHER header. Rows: {:?}",
        rows.iter()
            .filter_map(|r| match r {
                ListRow::Header { label, .. } => Some(label.clone()),
                _ => None,
            })
            .collect::<Vec<_>>()
    );

    // Verify known-status headers appear in priority order before unknown ones
    // In Progress (priority 1) should come before Todo (priority 2), before Done (priority 3)
    let headers: Vec<&str> = rows
        .iter()
        .filter_map(|r| match r {
            ListRow::Header { label, .. } => Some(label.as_str()),
            _ => None,
        })
        .collect();

    // Known groups should be in priority order: IN PROGRESS < TODO < DONE
    let in_progress_idx = headers.iter().position(|h| h.contains("IN PROGRESS")).unwrap();
    let todo_idx = headers.iter().position(|h| h.contains("TODO")).unwrap();
    let done_idx = headers.iter().position(|h| h.contains("DONE")).unwrap();

    assert!(
        in_progress_idx < todo_idx,
        "IN PROGRESS should appear before TODO"
    );
    assert!(
        todo_idx < done_idx,
        "TODO should appear before DONE"
    );

    // Unknown groups (REVIEW, BLOCKED) should appear after known groups
    let review_idx = headers.iter().position(|h| h.contains("REVIEW")).unwrap();
    let blocked_idx = headers.iter().position(|h| h.contains("BLOCKED")).unwrap();
    let last_known = done_idx.max(todo_idx.max(in_progress_idx));
    assert!(
        review_idx > last_known,
        "REVIEW should appear after known status groups"
    );
    assert!(
        blocked_idx > last_known,
        "BLOCKED should appear after known status groups"
    );
}


#[test]
fn header_labels_and_counts() {
    let tasks = vec![
        make_task("a", Some("in_progress"), Some(3)),
        make_task("b", Some("in_progress"), Some(2)),
        make_task("c", Some("done"), Some(1)),
    ];
    let grouped = GroupedTaskList::from_tasks(tasks);
    let rows = grouped.rows();
    assert!(matches!(&rows[0], ListRow::Header { label, count } if label == "▸ IN_PROGRESS (2)" && *count == 2));
    assert!(matches!(&rows[3], ListRow::Header { label, count } if label == "▸ DONE (1)" && *count == 1));
    assert_eq!(grouped.state(), Some(1));
}

#[test]
fn priority_indicators() {
    let p = |s: &str| Some(Priority { priority: s.to_string(), color: None });
    assert_eq!(get_priority_indicator(&p("urgent")), "⚡");
    assert_eq!(get_priority_indicator(&p("normal")), "•");
    assert_eq!(get_priority_indicator(&None), "•");
}
