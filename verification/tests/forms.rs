use clickdown::models::task::TaskStatus;
use clickdown::models::user::User;
use clickdown::tui::app::TaskCreationField;
use clickdown::tui::forms::{AssigneePicker, FormAction, PickerAction, StatusPicker, TaskForm};
use clickdown::tui::input::{KeyCode, KeyEvent};

fn user(id: i64) -> User {
    User { id, username: format!("u{}", id), color: None, email: None, profile_picture: None, initials: None }
}

#[test]
fn task_form_typing_and_focus() {
    let mut f = TaskForm::new();
    let mut status = String::new();
    for c in "Fix".chars() {
        f.handle_task_creation_input(KeyEvent::plain(KeyCode::Char(c)), None, &mut status);
    }
    f.handle_task_creation_input(KeyEvent::plain(KeyCode::Enter), None, &mut status);
    assert_eq!(f.focus, TaskCreationField::Description);
    assert_eq!(status, "Focus: Description");
    f.handle_task_creation_input(KeyEvent::plain(KeyCode::Char('d')), None, &mut status);
    f.handle_task_creation_input(KeyEvent::plain(KeyCode::Backspace), None, &mut status);
    f.handle_task_creation_input(KeyEvent::plain(KeyCode::Char('x')), None, &mut status);
    assert_eq!(f.name, "Fix");
    assert_eq!(f.description, "x");
    f.handle_task_creation_input(KeyEvent::plain(KeyCode::Tab), None, &mut status);
    assert_eq!(f.focus, TaskCreationField::Name);
    assert_eq!(status, "Focus: Task Name");
    let list = "L1".to_string();
    let act = f.handle_task_creation_input(KeyEvent::ctrl(KeyCode::Char('s')), Some(&list), &mut status);
    assert_eq!(act, FormAction::CreateTask { list_id: "L1".into() });
    let act = f.handle_task_creation_input(KeyEvent::ctrl(KeyCode::Char('s')), None, &mut status);
    assert_eq!(act, FormAction::NoOp);
    let act = f.handle_task_creation_input(KeyEvent::plain(KeyCode::Esc), None, &mut status);
    assert_eq!(act, FormAction::Cancel);
    assert!(f.name.is_empty() && f.description.is_empty());
    assert_eq!(status, "Task creation cancelled");
}

#[test]
fn task_form_requires_a_name() {
    let mut f = TaskForm::new();
    let mut status = String::new();
    f.handle_task_creation_input(KeyEvent::plain(KeyCode::Char(' ')), None, &mut status);
    let act = f.handle_task_creation_input(
        KeyEvent::ctrl(KeyCode::Char('s')),
        Some(&"L".to_string()),
        &mut status,
    );
    assert_eq!(act, FormAction::NoOp);
    assert_eq!(status, "Task name is required");
}

#[test]
fn assignee_picker_toggles() {
    let mut p = AssigneePicker {
        members: vec![user(1), user(2), user(3)],
        selected: vec![2],
        original: vec![2],
        cursor: 0,
    };
    let mut status = String::new();
    p.handle_assignee_picker_input(KeyEvent::plain(KeyCode::Char(' ')), &mut status);
    assert_eq!(p.selected, vec![2, 1]);
    p.handle_assignee_picker_input(KeyEvent::plain(KeyCode::Char('j')), &mut status);
    p.handle_assignee_picker_input(KeyEvent::plain(KeyCode::Char(' ')), &mut status);
    assert_eq!(p.selected, vec![1]);
    p.handle_assignee_picker_input(KeyEvent::plain(KeyCode::Char(' ')), &mut status);
    assert_eq!(p.selected, vec![1, 2]);
    for _ in 0..5 {
        p.handle_assignee_picker_input(KeyEvent::plain(KeyCode::Char('j')), &mut status);
    }
    assert_eq!(p.cursor, 2);
    assert_eq!(
        p.handle_assignee_picker_input(KeyEvent::ctrl(KeyCode::Char('s')), &mut status),
        PickerAction::Save
    );
    assert_eq!(
        p.handle_assignee_picker_input(KeyEvent::plain(KeyCode::Esc), &mut status),
        PickerAction::Cancel
    );
    assert_eq!(status, "Assignment cancelled");
}

#[test]
fn status_picker_moves_and_saves() {
    let st = |s: &str| TaskStatus {
        id: None,
        status: s.into(),
        color: None,
        type_field: None,
        orderindex: None,
        status_group: None,
    };
    let mut p = StatusPicker { statuses: vec![st("To Do"), st("Done")], cursor: 0 };
    let mut status = String::new();
    p.handle_status_picker_input(KeyEvent::plain(KeyCode::Down), &mut status);
    p.handle_status_picker_input(KeyEvent::plain(KeyCode::Down), &mut status);
    assert_eq!(p.cursor, 1);
    p.handle_status_picker_input(KeyEvent::plain(KeyCode::Char('k')), &mut status);
    assert_eq!(p.cursor, 0);
    assert_eq!(
        p.handle_status_picker_input(KeyEvent::plain(KeyCode::Enter), &mut status),
        PickerAction::Save
    );
    p.handle_status_picker_input(KeyEvent::plain(KeyCode::Esc), &mut status);
    assert_eq!(status, "Status change cancelled");
}
