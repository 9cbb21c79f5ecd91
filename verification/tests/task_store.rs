use clickdown::models::task_copy::{copy_task, copy_tasks};
use clickdown::models::task::{Task, TaskStatus};
use clickdown::models::user::User;
use clickdown::tui::app::SessionRestore;
use clickdown::tui::task_store::{
    open_assignee_picker, open_status_picker, remove_task, replace_task_by_id, set_task_status,
    assignees_answered, assignees_update_applied, choose_status, keep_selection, members_loaded,
    rebuild_task_list, status_change_answered, status_update_applied, task_deleted, tasks_answered,
    tasks_failed, tasks_loaded,
};
use clickdown::tui::forms::{AssigneePicker, StatusPicker};
use clickdown::tui::widgets::task_detail::TaskDetailState;
use clickdown::tui::widgets::task_list::{GroupedTaskList, ListRow};

fn task(id: &str, status: &str) -> Task {
    Task {
        id: id.into(),
        name: format!("Task {}", id),
        status: Some(TaskStatus {
            id: Some("s".into()),
            status: status.into(),
            color: Some("#fff".into()),
            type_field: None,
            orderindex: Some(1),
            status_group: Some("todo".into()),
        }),
        ..Default::default()
    }
}

fn user(id: i64) -> User {
    User { id, username: format!("u{}", id), color: None, email: None, profile_picture: None, initials: None }
}

#[test]
fn replace_updates_first_match_only() {
    let mut tasks = vec![task("a", "open"), task("b", "open"), task("a", "open")];
    let mut updated = task("a", "done");
    updated.name = "New".into();
    assert!(replace_task_by_id(&mut tasks, updated.clone()));
    assert_eq!(tasks[0], updated);
    assert_eq!(tasks[2].name, "Task a");
    assert!(!replace_task_by_id(&mut tasks, task("zz", "x")));
    assert_eq!(tasks.len(), 3);
}

#[test]
fn optimistic_status_and_rollback() {
    let mut tasks = vec![task("a", "open"), task("b", "open")];
    assert!(set_task_status(&mut tasks, "b", "Done".into()));
    let st = tasks[1].status.as_ref().unwrap();
    assert_eq!(st.status, "Done");
    assert!(st.status_group.is_none() && st.color.is_none());
    assert!(set_task_status(&mut tasks, "b", "open".into()));
    assert_eq!(tasks[1].status.as_ref().unwrap().status, "open");
    assert_eq!(tasks[0], task("a", "open"));
    assert!(!set_task_status(&mut tasks, "c", "x".into()));
}

#[test]
fn deleted_tasks_are_removed() {
    let tasks = vec![task("a", "o"), task("b", "o"), task("a", "o")];
    let left = remove_task(tasks, "a");
    assert_eq!(left.len(), 1);
    assert_eq!(left[0].id, "b");
    assert!(remove_task(vec![], "a").is_empty());
}

#[test]
fn pickers_open_on_a_task() {
    let mut t = task("a", "open");
    t.assignees = vec![user(3), user(1), user(3)];
    let p = open_assignee_picker(&Some(t.clone()), vec![user(1), user(2), user(3)]);
    assert_eq!(p.selected, vec![3, 1]);
    assert_eq!(p.original, vec![3, 1]);
    assert_eq!(p.cursor, 0);
    assert_eq!(p.members.len(), 3);
    let p = open_assignee_picker(&None, vec![user(1)]);
    assert!(p.selected.is_empty());

    let mut status = String::new();
    let (picker, id, original) = open_status_picker(&t, &mut status);
    let names: Vec<&str> = picker.statuses.iter().map(|s| s.status.as_str()).collect();
    assert_eq!(names, vec!["To Do", "In Progress", "Done"]);
    assert_eq!(id, "a");
    assert_eq!(original.as_deref(), Some("open"));
    assert_eq!(status, "Select new status (j/k navigate, Enter select, Esc cancel)");
}

fn restore(restoring: bool, task_id: Option<&str>) -> SessionRestore {
    SessionRestore {
        restoring,
        workspace_id: None,
        space_id: None,
        folder_id: None,
        list_id: Some("l1".into()),
        task_id: task_id.map(String::from),
    }
}

fn row_id(list: &GroupedTaskList, i: usize) -> String {
    match &list.rows()[i] {
        ListRow::Task(t) => t.id.clone(),
        ListRow::Header { .. } => String::new(),
    }
}

#[test]
fn loaded_tasks_select_the_first() {
    let mut list = GroupedTaskList::from_tasks(vec![task("a", "open"), task("b", "open")]);
    let mut r = restore(false, Some("b"));
    let mut status = String::new();
    tasks_loaded(&mut list, &mut r, &mut status);
    assert_eq!(status, "Loaded 2 task(s)");
    assert_eq!(list.state(), Some(1));
    assert_eq!(row_id(&list, 1), "a");
    assert!(!r.restoring);
}

#[test]
fn loaded_tasks_reselect_the_saved_task() {
    let mut list = GroupedTaskList::from_tasks(vec![task("a", "open"), task("b", "open")]);
    let mut r = restore(true, Some("b"));
    let mut status = String::new();
    tasks_loaded(&mut list, &mut r, &mut status);
    assert_eq!(status, "Restored to Tasks view - 2 task(s) loaded");
    let sel = list.state().unwrap();
    assert_eq!(row_id(&list, sel), "b");
    assert!(!r.restoring);
    assert_eq!(r.task_id.as_deref(), Some("b"));
}

#[test]
fn loaded_tasks_without_the_saved_task() {
    let mut list = GroupedTaskList::from_tasks(vec![task("a", "open")]);
    let mut r = restore(true, Some("gone"));
    let mut status = String::new();
    tasks_loaded(&mut list, &mut r, &mut status);
    assert_eq!(status, "Saved task not found, showing tasks");
    assert_eq!(list.state(), Some(1));
    assert!(!r.restoring);

    let mut empty = GroupedTaskList::from_tasks(vec![]);
    let mut r = restore(true, None);
    tasks_loaded(&mut empty, &mut r, &mut status);
    assert_eq!(status, "Loaded 0 task(s)");
    assert_eq!(empty.state(), None);
}

#[test]
fn rebuilt_list_keeps_or_resets_the_selection() {
    let mut list = GroupedTaskList::from_tasks(vec![task("a", "open"), task("b", "open")]);
    list.select(Some(2));
    keep_selection(&mut list, &Some("b".to_string()));
    assert_eq!(list.state(), Some(2));
    keep_selection(&mut list, &Some("gone".to_string()));
    assert_eq!(list.state(), Some(1));
    list.select(Some(2));
    keep_selection(&mut list, &None);
    assert_eq!(list.state(), Some(2));
}

#[test]
fn test_assignee_update_reflects_in_task_list_widget() {
    let task = Task { id: "test-task-1".to_string(), name: "Test Task".to_string(), ..Default::default() };
    let updated_task = Task { assignees: vec![named_user(1, "Alice"), named_user(2, "Bob")], ..task.clone() };

    let mut tasks = vec![task.clone()];
    let mut list = GroupedTaskList::from_tasks(tasks.clone());
    list.select_first();

    // The server's answer replaces the task, and the grouped list is rebuilt
    // from the tasks, keeping the selection.
    assert!(replace_task_by_id(&mut tasks, updated_task));
    let previous = list.selected_task().map(|t| t.id.clone());
    list = GroupedTaskList::from_tasks(tasks.clone());
    keep_selection(&mut list, &previous);

    let widget_task = list.selected_task().expect("Task should be selected");
    assert_eq!(widget_task.assignees.len(), 2, "Task list widget should have updated assignees");
    assert_eq!(widget_task.assignees[0].username, "Alice");
    assert_eq!(widget_task.assignees[1].username, "Bob");
}

fn named_user(id: i64, name: &str) -> User {
    User { id, username: name.into(), color: None, email: None, profile_picture: None, initials: None }
}

#[test]
fn chosen_status_shows_at_once() {
    let mut tasks = vec![task("a", "open"), task("b", "open")];
    let mut status = "before".to_string();
    let (picker, id, original) = open_status_picker(&tasks[1], &mut status);
    assert_eq!(original.as_deref(), Some("open"));
    let mut picker = picker;
    picker.cursor = 2;
    let r = choose_status(&picker, &Some(id.clone()), &mut tasks, &mut status);
    assert_eq!(r, Some(("b".to_string(), "Done".to_string())));
    assert_eq!(tasks[1].status.as_ref().unwrap().status, "Done");
    assert_eq!(tasks[0].status.as_ref().unwrap().status, "open");

    picker.cursor = 7;
    assert_eq!(choose_status(&picker, &Some(id), &mut tasks, &mut status), None);
    assert_eq!(status, "No status selected");
    assert_eq!(choose_status(&picker, &None, &mut tasks, &mut status), None);
    assert_eq!(status, "No task selected");
}

#[test]
fn failed_load_and_deletion() {
    let mut tasks = vec![task("a", "open"), task("b", "open")];
    let mut list = GroupedTaskList::from_tasks(tasks.clone());
    let mut status = String::new();
    let mut error = None;
    task_deleted(Err("403".into()), &mut tasks, &mut list, &mut status, &mut error);
    assert_eq!(tasks.len(), 2);
    assert_eq!(status, "Failed to delete task");
    assert_eq!(error.as_deref(), Some("Failed to delete task: 403"));
    task_deleted(Ok("a".into()), &mut tasks, &mut list, &mut status, &mut error);
    assert_eq!(tasks.len(), 1);
    assert_eq!(tasks[0].id, "b");
    assert_eq!(list.state(), None);
    assert_eq!(status, "Task deleted");

    let mut r = restore(true, Some("b"));
    tasks_failed("timeout", &mut tasks, &mut list, &mut r, &mut status, &mut error);
    assert!(tasks.is_empty());
    assert!(list.rows().is_empty());
    assert!(!r.restoring);
    assert_eq!(status, "Failed to load tasks");
    assert_eq!(error.as_deref(), Some("Failed to load tasks: timeout"));
}

#[test]
fn status_change_confirmed_or_rolled_back() {
    let mut tasks = vec![task("a", "open"), task("b", "open")];
    let mut status = String::new();
    let change = Some(("b".to_string(), Some("open".to_string())));
    set_task_status(&mut tasks, "b", "Done".to_string());
    status_change_answered(Err("500".into()), &change, &mut tasks, &mut status);
    assert_eq!(tasks[1].status.as_ref().unwrap().status, "open");
    assert_eq!(status, "Failed to update status: 500");

    status_change_answered(Ok(task("b", "Done")), &change, &mut tasks, &mut status);
    assert_eq!(tasks[1].status.as_ref().unwrap().status, "Done");
    assert_eq!(status, "Status updated");

    let mut updated = task("a", "open");
    updated.assignees = vec![user(3)];
    assignees_answered(Ok(updated), &mut tasks, &mut status);
    assert_eq!(tasks[0].assignees.len(), 1);
    assert_eq!(status, "Assignees updated");
    assignees_answered(Err("no".into()), &mut tasks, &mut status);
    assert_eq!(status, "Failed to update assignees: no");
}

#[test]
fn rebuild_keeps_selected_task_by_id() {
    let mut a = task("a", "open");
    a.updated_at = Some(2000);
    let mut b = task("b", "open");
    b.updated_at = Some(1000);
    let tasks = vec![a, b];
    let mut list = GroupedTaskList::from_tasks(tasks.clone());
    list.select(Some(2));
    let previous = list.selected_task().map(|t| t.id.clone());
    assert_eq!(previous, Some("b".to_string()));
    // The list is built afresh (which selects its first task), and the task
    // selected before is selected again.
    let mut rebuilt = GroupedTaskList::from_tasks(tasks.clone());
    assert_eq!(rebuilt.state(), Some(1));
    keep_selection(&mut rebuilt, &previous);
    assert_eq!(rebuilt.selected_task().map(|t| t.id.clone()), Some("b".to_string()));
}

#[test]
fn rebuild_from_tasks_keeps_or_resets_selection() {
    let mut tasks = vec![task("a", "open"), task("b", "open")];
    let mut list = GroupedTaskList::from_tasks(tasks.clone());
    list.select(Some(2));
    rebuild_task_list(&tasks, &mut list);
    assert_eq!(list.selected_task().map(|t| t.id.clone()), Some("b".to_string()));
    tasks.pop();
    rebuild_task_list(&tasks, &mut list);
    assert_eq!(list.state(), Some(1));
    assert_eq!(list.selected_task().map(|t| t.id.clone()), Some("a".to_string()));
    tasks.clear();
    rebuild_task_list(&tasks, &mut list);
    assert_eq!(list.state(), None);
    assert!(list.rows().is_empty());
}

#[test]
fn assignee_answer_updates_everything_or_only_the_message() {
    let mut tasks = vec![task("a", "open"), task("b", "open")];
    let mut list = GroupedTaskList::from_tasks(tasks.clone());
    list.select(Some(2));
    let mut detail = TaskDetailState::new();
    let mut picker = Some(AssigneePicker { members: vec![user(1)], selected: vec![1], original: vec![], cursor: 0 });
    let mut status = String::new();

    assignees_update_applied(Err("boom".into()), &mut tasks, &mut list, &mut detail, &mut picker, &mut status);
    assert_eq!(status, "Failed to update assignees: boom");
    assert!(picker.is_some());
    assert!(detail.task.is_none());

    let mut updated = task("b", "open");
    updated.assignees = vec![user(1)];
    assignees_update_applied(Ok(updated.clone()), &mut tasks, &mut list, &mut detail, &mut picker, &mut status);
    assert_eq!(status, "Assignees updated");
    assert!(picker.is_none());
    assert_eq!(detail.task, Some(updated.clone()));
    assert_eq!(tasks[1], updated);
    assert_eq!(list.selected_task(), Some(&updated));
}

#[test]
fn status_answer_rebuilds_and_closes_the_picker() {
    let mut tasks = vec![task("a", "open"), task("b", "done")];
    let mut list = GroupedTaskList::from_tasks(tasks.clone());
    let mut detail = TaskDetailState::new();
    let mut picker = Some(StatusPicker { statuses: vec![], cursor: 0 });
    let mut status = String::new();

    // An optimistic change of "a" to "done" that the server refuses.
    set_task_status(&mut tasks, "a", "done".into());
    let change = Some(("a".to_string(), Some("open".to_string())));
    status_update_applied(Err("nope".into()), &change, &mut tasks, &mut list, &mut detail, &mut picker, &mut status);
    assert_eq!(status, "Failed to update status: nope");
    assert!(picker.is_none());
    assert_eq!(tasks[0].status.as_ref().unwrap().status, "open");
    assert!(detail.task.is_none());

    picker = Some(StatusPicker { statuses: vec![], cursor: 0 });
    let confirmed = task("a", "done");
    status_update_applied(Ok(confirmed.clone()), &change, &mut tasks, &mut list, &mut detail, &mut picker, &mut status);
    assert_eq!(status, "Status updated");
    assert!(picker.is_none());
    assert_eq!(detail.task, Some(confirmed.clone()));
    assert_eq!(tasks[0], confirmed);
    assert_eq!(list.selected_task().map(|t| t.id.clone()), Some("a".to_string()));
}

#[test]
fn members_open_the_picker_or_report_failure() {
    let mut status = "ready".to_string();
    let mut shown = task("a", "open");
    shown.assignees = vec![user(2)];
    let picker = members_loaded(Ok(vec![user(1), user(2)]), &Some(shown), &mut status).expect("picker");
    assert_eq!(picker.members.len(), 2);
    assert_eq!(picker.selected, vec![2]);
    assert_eq!(picker.original, vec![2]);
    assert_eq!(picker.cursor, 0);
    assert_eq!(status, "ready");
    assert!(members_loaded(Err("down".into()), &None, &mut status).is_none());
    assert_eq!(status, "Failed to load members: down");
}

#[test]
fn tasks_answer_keeps_tasks_and_builds_the_list() {
    let mut tasks = vec![task("old", "open")];
    let mut list = GroupedTaskList::new();
    let mut restore = restore(false, None);
    let mut status = String::new();
    let mut error = Some("earlier".to_string());
    tasks_answered(Ok(vec![task("a", "open"), task("b", "open")]), &mut tasks, &mut list, &mut restore, &mut status, &mut error);
    assert_eq!(tasks.len(), 2);
    assert_eq!(list.rows().len(), 3);
    assert_eq!(list.state(), Some(1));
    assert_eq!(status, "Loaded 2 task(s)");
    assert!(error.is_none());
    tasks_answered(Err("503".into()), &mut tasks, &mut list, &mut restore, &mut status, &mut error);
    assert!(tasks.is_empty());
    assert!(list.rows().is_empty());
    assert_eq!(status, "Failed to load tasks");
    assert_eq!(error, Some("Failed to load tasks: 503".to_string()));
}

#[test]
fn task_copies_are_equal() {
    let mut t = task("a", "open");
    t.assignees = vec![user(1), user(2)];
    t.tags = vec![];
    t.url = Some("https://example.test/t/a".into());
    t.updated_at = Some(5);
    assert_eq!(copy_task(&t), t);
    let ts = vec![t.clone(), task("b", "done")];
    assert_eq!(copy_tasks(&ts), ts);
}
