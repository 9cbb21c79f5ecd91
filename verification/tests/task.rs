use clickdown::models::task::{
    get_status_group_priority, sort_tasks, StatusGroupPriority, Task, TaskFilters, TaskStatus,
};

fn create_task_with_status_and_updated_at(
    id: &str,
    status_group: Option<&str>,
    updated_at: Option<i64>,
) -> Task {
    Task {
        id: id.to_string(),
        name: format!("Task {}", id),
        status: Some(TaskStatus {
            id: None,
            status: "test".to_string(),
            color: None,
            type_field: None,
            orderindex: None,
            status_group: status_group.map(|s| s.to_string()),
        }),
        updated_at,
        ..Default::default()
    }
}

#[test]
fn test_status_group_priority_mapping() {
    assert_eq!(
        get_status_group_priority(Some("in_progress")),
        StatusGroupPriority::InProgress
    );
    assert_eq!(
        get_status_group_priority(Some("IN_PROGRESS")),
        StatusGroupPriority::InProgress
    );
    assert_eq!(
        get_status_group_priority(Some("in progress")),
        StatusGroupPriority::InProgress
    );

    assert_eq!(
        get_status_group_priority(Some("todo")),
        StatusGroupPriority::ToDo
    );
    assert_eq!(
        get_status_group_priority(Some("to_do")),
        StatusGroupPriority::ToDo
    );

    assert_eq!(
        get_status_group_priority(Some("done")),
        StatusGroupPriority::Done
    );
    assert_eq!(
        get_status_group_priority(Some("complete")),
        StatusGroupPriority::Done
    );

    assert_eq!(
        get_status_group_priority(Some("unknown")),
        StatusGroupPriority::Fallback
    );
    assert_eq!(
        get_status_group_priority(None),
        StatusGroupPriority::Fallback
    );
}

#[test]
fn test_sort_tasks_by_status_priority() {
    let tasks = vec![
        create_task_with_status_and_updated_at("done1", Some("done"), Some(1000)),
        create_task_with_status_and_updated_at("todo1", Some("todo"), Some(1000)),
        create_task_with_status_and_updated_at("progress1", Some("in_progress"), Some(1000)),
    ];

    let sorted = sort_tasks(tasks);

    assert_eq!(sorted[0].id, "progress1");
    assert_eq!(sorted[1].id, "todo1");
    assert_eq!(sorted[2].id, "done1");
}

#[test]
fn test_sort_tasks_by_recency_within_status_group() {
    let tasks = vec![
        create_task_with_status_and_updated_at("old", Some("in_progress"), Some(1000)),
        create_task_with_status_and_updated_at("new", Some("in_progress"), Some(3000)),
        create_task_with_status_and_updated_at("mid", Some("in_progress"), Some(2000)),
    ];

    let sorted = sort_tasks(tasks);

    assert_eq!(sorted[0].id, "new");
    assert_eq!(sorted[1].id, "mid");
    assert_eq!(sorted[2].id, "old");
}

#[test]
fn test_sort_tasks_missing_updated_at() {
    let tasks = vec![
        create_task_with_status_and_updated_at("with_date", Some("todo"), Some(1000)),
        create_task_with_status_and_updated_at("no_date", Some("todo"), None),
    ];

    let sorted = sort_tasks(tasks);

    assert_eq!(sorted[0].id, "with_date");
    assert_eq!(sorted[1].id, "no_date");
}

#[test]
fn test_sort_tasks_missing_status() {
    let tasks = vec![
        create_task_with_status_and_updated_at("with_status", Some("todo"), Some(1000)),
        create_task_with_status_and_updated_at("no_status", None, Some(1000)),
    ];

    let sorted = sort_tasks(tasks);

    assert_eq!(sorted[0].id, "with_status");
    assert_eq!(sorted[1].id, "no_status");
}

#[test]
fn test_sort_tasks_empty_list() {
    let tasks: Vec<Task> = vec![];
    let sorted = sort_tasks(tasks);
    assert!(sorted.is_empty());
}

#[test]
fn test_sort_tasks_single_task() {
    let tasks = vec![create_task_with_status_and_updated_at(
        "single",
        Some("in_progress"),
        Some(1000),
    )];
    let sorted = sort_tasks(tasks);
    assert_eq!(sorted.len(), 1);
    assert_eq!(sorted[0].id, "single");
}

#[test]
fn test_sort_tasks_all_same_status() {
    let tasks = vec![
        create_task_with_status_and_updated_at("a", Some("done"), Some(1000)),
        create_task_with_status_and_updated_at("b", Some("done"), Some(3000)),
        create_task_with_status_and_updated_at("c", Some("done"), Some(2000)),
    ];

    let sorted = sort_tasks(tasks);

    assert_eq!(sorted[0].id, "b");
    assert_eq!(sorted[1].id, "c");
    assert_eq!(sorted[2].id, "a");
}

#[test]
fn test_task_filters_assignees_format() {
    // Test that assignees are formatted as array values (assignees[]=123&assignees[]=456)
    let mut filters = TaskFilters::default();
    filters.assignees = vec![123, 456, 789];

    let query = filters.to_query_string();

    // Should use array format, not comma-separated
    assert!(query.contains("assignees[]=123"));
    assert!(query.contains("assignees[]=456"));
    assert!(query.contains("assignees[]=789"));
}

#[test]
fn test_task_filters_single_assignee() {
    let mut filters = TaskFilters::default();
    filters.assignees = vec![123];

    let query = filters.to_query_string();

    assert_eq!(query, "?assignees[]=123");
}

#[test]
fn test_task_filters_no_assignees() {
    let filters = TaskFilters::default();
    let query = filters.to_query_string();

    // Empty filters should produce empty query or no assignees param
    assert!(!query.contains("assignees"));
}

#[test]
fn test_task_filters_with_limit() {
    let mut filters = TaskFilters::default();
    filters.assignees = vec![123];
    filters.limit = Some(100);

    let query = filters.to_query_string();

    // Should use array format for assignees and include limit
    assert!(query.contains("assignees[]=123"));
    assert!(query.contains("limit=100"));
}

#[test]
fn test_task_filters_mixed_with_assignees() {
    let mut filters = TaskFilters::default();
    filters.archived = Some(false);
    filters.assignees = vec![123, 456];
    filters.statuses = vec!["todo".to_string(), "in progress".to_string()];

    let query = filters.to_query_string();

    assert!(query.contains("archived=false"));
    assert!(query.contains("assignees[]=123"));
    assert!(query.contains("assignees[]=456"));
    assert!(query.contains("statuses[]=todo"));
    assert!(query.contains("statuses[]=in progress"));
}


#[test]
fn task_filters_full_order() {
    let mut filters = TaskFilters::default();
    filters.archived = Some(true);
    filters.page = Some(2);
    filters.order_by = Some("due_date".to_string());
    filters.subtasks = Some(false);
    filters.statuses = vec!["open".to_string()];
    filters.assignees = vec![-5];
    filters.include_closed = Some(true);
    assert_eq!(
        filters.to_query_string(),
        "?archived=true&page=2&order_by=due_date&subtasks=false&statuses[]=open&assignees[]=-5&include_closed=true"
    );
    assert_eq!(TaskFilters::default().to_query_string(), "");
}

#[test]
fn sort_tasks_is_a_permutation_on_example() {
    let tasks = vec![
        create_task_with_status_and_updated_at("a", Some("done"), Some(5)),
        create_task_with_status_and_updated_at("b", None, None),
        create_task_with_status_and_updated_at("c", Some("in progress"), Some(1)),
        create_task_with_status_and_updated_at("d", Some("to do"), Some(7)),
        create_task_with_status_and_updated_at("e", Some("in_progress"), Some(9)),
    ];
    let sorted = sort_tasks(tasks);
    let ids: Vec<&str> = sorted.iter().map(|t| t.id.as_str()).collect();
    assert_eq!(ids, vec!["e", "c", "a", "d", "b"]);
}
