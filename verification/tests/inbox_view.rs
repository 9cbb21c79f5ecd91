use clickdown::models::inbox_activity::{ActivityType, InboxActivity};
use clickdown::tui::widgets::inbox_view::InboxListState;

#[test]
fn test_inbox_list_state_navigation() {
    let mut state = InboxListState::new();

    // Empty list
    state.select_next();
    assert_eq!(state.selected(), None);

    // Add activities
    state.set_activities(vec![
        InboxActivity {
            id: "1".to_string(),
            activity_type: ActivityType::Assignment,
            title: "First".to_string(),
            description: "".to_string(),
            timestamp: 1000,
            task_id: None,
            comment_id: None,
            workspace_id: "ws".to_string(),
            task_name: String::new(),
            previous_status: None,
            new_status: None,
            due_date: None,
        },
        InboxActivity {
            id: "2".to_string(),
            activity_type: ActivityType::Comment,
            title: "Second".to_string(),
            description: "".to_string(),
            timestamp: 2000,
            task_id: None,
            comment_id: None,
            workspace_id: "ws".to_string(),
            task_name: String::new(),
            previous_status: None,
            new_status: None,
            due_date: None,
        },
    ]);

    assert_eq!(state.selected(), Some(0));

    state.select_next();
    assert_eq!(state.selected(), Some(1));

    state.select_next();
    assert_eq!(state.selected(), Some(0)); // Wraps around

    state.select_previous();
    assert_eq!(state.selected(), Some(1));
}


fn activity(id: &str) -> InboxActivity {
    InboxActivity::assignment(id.to_string(), "T".to_string(), "ws".to_string(), 1, None)
}

#[test]
fn set_activities_keeps_selection_in_range() {
    let mut state = InboxListState::new();
    state.set_activities(vec![activity("a"), activity("b"), activity("c")]);
    state.select(Some(2));
    state.set_activities(vec![activity("a")]);
    assert_eq!(state.selected(), Some(0));
    assert_eq!(state.selected_activity().map(|a| a.id.as_str()), Some("assignment_a"));
    state.set_notifications(vec![]);
    assert_eq!(state.selected(), None);
    assert!(state.selected_notification().is_none());
}
