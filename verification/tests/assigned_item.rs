use clickdown::models::assigned_item::{
    sort_assigned_items, AssignedComment, AssignedItem, AssignedItemsFilter,
};
use clickdown::models::comment::Comment;
use clickdown::models::task::{Task, TaskReference};

fn create_test_task(id: &str, name: &str, updated_at: Option<i64>) -> Task {
    Task {
        id: id.to_string(),
        name: name.to_string(),
        updated_at,
        ..Default::default()
    }
}

fn create_test_comment(id: &str, text: &str, updated_at: Option<i64>) -> AssignedComment {
    AssignedComment {
        comment: Comment {
            id: id.to_string(),
            text: text.to_string(),
            text_preview: String::new(),
            commenter: None,
            created_at: None,
            updated_at,
            assigned_commenter: None,
            assigned_by: None,
            assigned: false,
            reaction: String::new(),
            parent_id: None,
        },
        task: TaskReference {
            id: "task123".to_string(),
            name: Some("Parent Task".to_string()),
        },
        assigned_at: None,
    }
}

#[test]
fn test_assigned_item_id() {
    let task = create_test_task("task1", "Test Task", Some(1000));
    let item = AssignedItem::Task(task);
    assert_eq!(item.id(), "task1");

    let comment = create_test_comment("comment1", "Test Comment", Some(1000));
    let item = AssignedItem::AssignedComment(comment);
    assert_eq!(item.id(), "comment_comment1");
}

#[test]
fn test_assigned_item_name() {
    let task = create_test_task("task1", "Test Task", Some(1000));
    let item = AssignedItem::Task(task);
    assert_eq!(item.name(), "Test Task");

    let comment = create_test_comment("comment1", "Test Comment Text", Some(1000));
    let item = AssignedItem::AssignedComment(comment);
    assert_eq!(item.name(), "Test Comment Text");
}

#[test]
fn test_assigned_item_is_task_is_comment() {
    let task_item = AssignedItem::Task(create_test_task("task1", "Test", Some(1000)));
    assert!(task_item.is_task());
    assert!(!task_item.is_comment());

    let comment_item =
        AssignedItem::AssignedComment(create_test_comment("c1", "Test", Some(1000)));
    assert!(comment_item.is_comment());
    assert!(!comment_item.is_task());
}

#[test]
fn test_assigned_item_parent_task() {
    let task = create_test_task("task1", "Test Task", Some(1000));
    let item = AssignedItem::Task(task);
    let parent = item.parent_task();
    assert!(parent.is_some());
    assert_eq!(parent.unwrap().id, "task1");

    let comment = create_test_comment("comment1", "Test", Some(1000));
    let item = AssignedItem::AssignedComment(comment);
    let parent = item.parent_task();
    assert!(parent.is_some());
    assert_eq!(parent.unwrap().id, "task123");
}

#[test]
fn test_sort_assigned_items() {
    let items = vec![
        AssignedItem::Task(create_test_task("old", "Old Task", Some(1000))),
        AssignedItem::Task(create_test_task("new", "New Task", Some(3000))),
        AssignedItem::AssignedComment(create_test_comment("mid", "Mid Comment", Some(2000))),
    ];

    let sorted = sort_assigned_items(items);

    assert_eq!(sorted[0].id(), "new");
    assert_eq!(sorted[1].id(), "comment_mid");
    assert_eq!(sorted[2].id(), "old");
}

#[test]
fn test_assigned_items_filter_apply() {
    let items = vec![
        AssignedItem::Task(create_test_task("task1", "Task 1", Some(1000))),
        AssignedItem::AssignedComment(create_test_comment("comment1", "Comment 1", Some(1000))),
        AssignedItem::Task(create_test_task("task2", "Task 2", Some(1000))),
    ];

    let all = AssignedItemsFilter::All.apply(items.clone());
    assert_eq!(all.len(), 3);

    let tasks = AssignedItemsFilter::TasksOnly.apply(items.clone());
    assert_eq!(tasks.len(), 2);
    assert!(tasks.iter().all(|i| i.is_task()));

    let comments = AssignedItemsFilter::CommentsOnly.apply(items.clone());
    assert_eq!(comments.len(), 1);
    assert!(comments.iter().all(|i| i.is_comment()));
}

#[test]
fn test_assigned_items_filter_next() {
    assert_eq!(AssignedItemsFilter::All.next(), AssignedItemsFilter::TasksOnly);
    assert_eq!(AssignedItemsFilter::TasksOnly.next(), AssignedItemsFilter::CommentsOnly);
    assert_eq!(AssignedItemsFilter::CommentsOnly.next(), AssignedItemsFilter::All);
}

#[test]
fn test_assigned_items_filter_label() {
    assert_eq!(AssignedItemsFilter::All.label(), "All");
    assert_eq!(AssignedItemsFilter::TasksOnly.label(), "Tasks");
    assert_eq!(AssignedItemsFilter::CommentsOnly.label(), "Comments");
}

#[test]
fn test_assigned_comment_preview() {
    let comment = create_test_comment("c1", "This is a short comment", None);
    assert_eq!(comment.preview(50), "This is a short comment");

    let long_comment = create_test_comment(
        "c2",
        "This is a very long comment that should be truncated",
        None,
    );
    assert_eq!(long_comment.preview(20), "This is a very lo...");
}

#[test]
fn filter_cycle_returns_after_three_steps() {
    for f in [
        AssignedItemsFilter::All,
        AssignedItemsFilter::TasksOnly,
        AssignedItemsFilter::CommentsOnly,
    ] {
        assert_eq!(f.next().next().next(), f);
        assert_ne!(f.next(), f);
    }
}

#[test]
fn sort_assigned_items_keeps_order_of_equal_times() {
    let items = vec![
        AssignedItem::Task(create_test_task("a", "A", Some(5))),
        AssignedItem::Task(create_test_task("b", "B", Some(5))),
        AssignedItem::AssignedComment(create_test_comment("c", "C", None)),
        AssignedItem::Task(create_test_task("d", "D", Some(9))),
    ];
    let sorted = sort_assigned_items(items);
    let ids: Vec<String> = sorted.iter().map(|i| i.id()).collect();
    assert_eq!(ids, vec!["d", "a", "b", "comment_c"]);
}
