use clickdown::tui::comment_panel::CommentPanel;
use clickdown::tui::input::{KeyCode, KeyEvent};
use clickdown::tui::keys::{
    auth_key, dialog_enter_outcome, is_text_input_active, route_key, tasks_key, AuthAction,
    DialogOutcome, KeyRoute, RouteFlags, TasksAction,
};
use clickdown::tui::widgets::dialog::{DialogState, DialogType};

fn flags() -> RouteFlags {
    RouteFlags {
        help_visible: false,
        chord_pending: false,
        url_input_open: false,
        status_picker_open: false,
        dialog_visible: false,
        text_input_active: false,
    }
}

fn k(c: char) -> KeyEvent {
    KeyEvent::plain(KeyCode::Char(c))
}

#[test]
fn help_overlay_takes_keys() {
    let f = RouteFlags { help_visible: true, ..flags() };
    assert_eq!(route_key(f, k('j')).0, KeyRoute::HelpNext);
    assert_eq!(route_key(f, KeyEvent::plain(KeyCode::Left)).0, KeyRoute::HelpPrevious);
    assert_eq!(route_key(f, KeyEvent::plain(KeyCode::Esc)).0, KeyRoute::HelpClose);
    assert_eq!(route_key(f, k('?')).0, KeyRoute::HelpToggle);
    assert_eq!(route_key(f, k('x')).0, KeyRoute::Ignored);
}

#[test]
fn chord_g_u() {
    let (r, pending) = route_key(flags(), k('g'));
    assert_eq!(r, KeyRoute::StartChord);
    assert!(pending);
    let (r, pending) = route_key(RouteFlags { chord_pending: true, ..flags() }, k('u'));
    assert_eq!(r, KeyRoute::OpenUrlInput);
    assert!(!pending);
    let (r, pending) = route_key(RouteFlags { chord_pending: true, ..flags() }, k('x'));
    assert_eq!(r, KeyRoute::Screen);
    assert!(!pending);
    let (r, _) = route_key(RouteFlags { text_input_active: true, ..flags() }, k('g'));
    assert_eq!(r, KeyRoute::TextInput);
}

#[test]
fn modal_priorities() {
    assert_eq!(route_key(RouteFlags { url_input_open: true, ..flags() }, k('u')).0, KeyRoute::UrlInput);
    assert_eq!(
        route_key(RouteFlags { status_picker_open: true, dialog_visible: true, ..flags() }, k('j')).0,
        KeyRoute::StatusPicker
    );
    let d = RouteFlags { dialog_visible: true, ..flags() };
    assert_eq!(route_key(d, KeyEvent::plain(KeyCode::Enter)).0, KeyRoute::DialogEnter);
    assert_eq!(route_key(d, KeyEvent::plain(KeyCode::Esc)).0, KeyRoute::DialogClose);
    assert_eq!(route_key(d, k('j')).0, KeyRoute::Screen);
    assert_eq!(route_key(flags(), k('u')).0, KeyRoute::CopyUrl);
    assert_eq!(route_key(flags(), k('?')).0, KeyRoute::HelpToggle);
}

#[test]
fn dialog_outcomes() {
    let mut d = DialogState::new();
    d.show(DialogType::ConfirmQuit);
    assert_eq!(dialog_enter_outcome(&d), DialogOutcome::Close);
    d.toggle();
    assert_eq!(dialog_enter_outcome(&d), DialogOutcome::Quit);
    d.show(DialogType::ConfirmDelete);
    d.toggle();
    assert_eq!(dialog_enter_outcome(&d), DialogOutcome::Delete);
    d.show(DialogType::Custom("?".into()));
    d.toggle();
    assert_eq!(dialog_enter_outcome(&d), DialogOutcome::Close);
}

#[test]
fn task_list_keys() {
    assert_eq!(tasks_key(k('j'), false, false), TasksAction::SelectNext);
    assert_eq!(tasks_key(KeyEvent::plain(KeyCode::Up), false, false), TasksAction::SelectPrevious);
    assert_eq!(tasks_key(KeyEvent::plain(KeyCode::Enter), true, false), TasksAction::OpenSelected);
    assert_eq!(tasks_key(KeyEvent::plain(KeyCode::Enter), false, false), TasksAction::NoOp);
    assert_eq!(tasks_key(k('n'), false, false), TasksAction::NewTask);
    assert_eq!(tasks_key(k('e'), true, false), TasksAction::NoOp);
    assert_eq!(tasks_key(k('e'), false, true), TasksAction::EditTask);
    assert_eq!(tasks_key(k('d'), true, false), TasksAction::ConfirmDelete);
    assert_eq!(tasks_key(k('a'), false, false), TasksAction::ToggleAssignedFilter);
    assert_eq!(tasks_key(k('s'), true, false), TasksAction::OpenStatusPicker);
    assert_eq!(tasks_key(KeyEvent::plain(KeyCode::Esc), false, false), TasksAction::Back);
    assert_eq!(tasks_key(KeyEvent::plain(KeyCode::Tab), false, false), TasksAction::ToggleSidebar);
    assert_eq!(tasks_key(k('z'), true, true), TasksAction::NoOp);
}

#[test]
fn sign_in_keys() {
    assert_eq!(auth_key(KeyEvent::plain(KeyCode::Esc), false), AuthAction::Clear);
    assert_eq!(auth_key(KeyEvent::plain(KeyCode::Enter), false), AuthAction::Authenticate);
    assert_eq!(auth_key(KeyEvent::plain(KeyCode::Enter), true), AuthAction::NoOp);
    assert_eq!(auth_key(KeyEvent::ctrl(KeyCode::Char('v')), false), AuthAction::Paste);
    assert_eq!(auth_key(k('v'), false), AuthAction::Type('v'));
    assert_eq!(auth_key(KeyEvent::plain(KeyCode::Backspace), false), AuthAction::Erase);
    assert_eq!(auth_key(KeyEvent::plain(KeyCode::Down), false), AuthAction::NoOp);
}

#[test]
fn text_input_activity() {
    let mut p = CommentPanel::new();
    assert!(!is_text_input_active(false, false, false, false, &p));
    assert!(is_text_input_active(true, false, false, false, &p));
    assert!(is_text_input_active(false, false, false, true, &p));
    p.new_text.push('x');
    assert!(is_text_input_active(false, false, false, false, &p));
    p.new_text.clear();
    p.editing_index = Some(0);
    assert!(is_text_input_active(false, false, false, false, &p));
}

#[test]
fn test_is_text_input_active_inactive() {
    let p = CommentPanel::new();
    assert!(!is_text_input_active(false, false, false, false, &p));
}

#[test]
fn test_is_text_input_active_url_input() {
    let p = CommentPanel::new();
    assert!(is_text_input_active(true, false, false, false, &p));
}

#[test]
fn test_is_text_input_active_status_picker() {
    let p = CommentPanel::new();
    assert!(is_text_input_active(false, true, false, false, &p));
}

#[test]
fn test_is_text_input_active_assignee_picker() {
    let p = CommentPanel::new();
    assert!(is_text_input_active(false, false, true, false, &p));
}

#[test]
fn test_is_text_input_active_task_creating() {
    let p = CommentPanel::new();
    assert!(is_text_input_active(false, false, false, true, &p));
}

#[test]
fn test_is_text_input_active_comment_editing() {
    let mut p = CommentPanel::new();
    p.editing_index = Some(0);
    assert!(is_text_input_active(false, false, false, false, &p));
}

#[test]
fn test_is_text_input_active_comment_new_text() {
    let mut p = CommentPanel::new();
    p.new_text = "typing...".to_string();
    assert!(is_text_input_active(false, false, false, false, &p));
}
