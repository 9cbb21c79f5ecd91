use clickdown::tui::widgets::status_picker::parse_hex_color;
use clickdown::tui::widgets::auth::{get_auth_hints, AuthState};
use clickdown::tui::widgets::dialog::{get_dialog_hints, DialogState, DialogType};
use clickdown::tui::widgets::document::{events_to_text, markdown_to_text, DocumentState, MdEvent};
use clickdown::tui::widgets::task_detail::{estimate_wrapped_lines, get_task_detail_hints, TaskDetailState};

#[test]
fn dialog_lifecycle() {
    let mut d = DialogState::new();
    assert!(!d.is_visible());
    d.show(DialogType::ConfirmDelete);
    assert!(d.is_visible());
    assert!(!d.confirmed());
    d.toggle();
    assert!(d.confirmed());
    assert_eq!(
        d.dialog_type.as_ref().unwrap().message(),
        "Are you sure you want to delete this item?"
    );
    d.close();
    assert!(!d.is_visible());
    assert!(!d.confirmed());
    assert_eq!(DialogType::Custom("Sure?".to_string()).message(), "Sure?");
    assert_eq!(get_dialog_hints(), "←/→: Select | Enter: Confirm | Esc: Cancel");
}

#[test]
fn auth_input_editing() {
    let mut a = AuthState::new();
    a.add_char('a');
    a.add_char('c');
    a.cursor_pos = 1;
    a.add_char('b');
    assert_eq!(a.token_input, "abc");
    assert_eq!(a.cursor_pos, 2);
    a.remove_char();
    assert_eq!(a.token_input, "ac");
    assert_eq!(a.cursor_pos, 1);
    a.cursor_pos = 0;
    a.remove_char();
    assert_eq!(a.token_input, "ac");
    a.clear();
    assert!(a.token_input.is_empty());
    assert_eq!(a.cursor_pos, 0);
    assert!(!get_auth_hints().is_empty());
}

#[test]
fn markdown_text() {
    let events = vec![
        MdEvent::Text("Title".to_string()),
        MdEvent::HeadingEnd,
        MdEvent::Text("use ".to_string()),
        MdEvent::Code("x".to_string()),
        MdEvent::Break,
        MdEvent::Other,
        MdEvent::ParagraphEnd,
    ];
    assert_eq!(events_to_text(&events), "Title\n\nuse `x`\n\n\n");
    assert_eq!(markdown_to_text("# Title\n\nuse `x`"), "Title\n\nuse `x`\n\n");
    assert_eq!(markdown_to_text(""), "");
}

#[test]
fn task_detail_defaults() {
    let s = TaskDetailState::new();
    assert!(s.task.is_none());
    assert!(!s.editing && !s.creating);
    assert_eq!(s.description_scroll.offset, 0);
    assert_eq!(get_task_detail_hints(), "e: Edit | d: Delete | Ctrl+S: Save | Esc: Close");
}

#[test]
fn document_scrolls_without_going_above_the_top() {
    let mut d = DocumentState::new();
    d.scroll_up();
    assert_eq!(d.scroll_offset, 0);
    d.scroll_down();
    d.scroll_down();
    assert_eq!(d.scroll_offset, 2);
    d.scroll_up();
    assert_eq!(d.scroll_offset, 1);
    d.scroll_offset = usize::MAX;
    d.scroll_down();
    assert_eq!(d.scroll_offset, usize::MAX);
}

#[test]
fn wrapped_line_estimate() {
    assert_eq!(estimate_wrapped_lines("", 10), 1);
    assert_eq!(estimate_wrapped_lines("hello", 0), 5);
    assert_eq!(estimate_wrapped_lines("hello world", 5), 3);
    assert_eq!(estimate_wrapped_lines("hello", 5), 1);
    assert_eq!(estimate_wrapped_lines("a\n\nb", 10), 3);
    assert_eq!(estimate_wrapped_lines("abc\r\n", 2), 2);
    assert_eq!(estimate_wrapped_lines("abc\n", 1), 3);
    assert_eq!(estimate_wrapped_lines("é", 1), 2);
}

#[test]
fn sign_in_needs_a_token() {
    let mut a = AuthState::new();
    let mut status = String::new();
    assert_eq!(a.begin_authentication(&mut status), None);
    assert_eq!(a.error.as_deref(), Some("Token cannot be empty"));
    assert_eq!(status, "Authentication failed");
    a.add_char('p');
    a.add_char('k');
    assert_eq!(a.begin_authentication(&mut status), Some("pk".to_string()));
    assert!(a.loading);
    assert_eq!(status, "Authenticating...");
}

#[test]
fn status_colours_from_hex() {
    assert_eq!(parse_hex_color("#ff0000"), Some((255, 0, 0)));
    assert_eq!(parse_hex_color("##00FF7f"), Some((0, 255, 127)));
    assert_eq!(parse_hex_color("8794a6"), Some((0x87, 0x94, 0xa6)));
    assert_eq!(parse_hex_color("+f+f+f"), Some((15, 15, 15)));
    assert_eq!(parse_hex_color("#fff"), None);
    assert_eq!(parse_hex_color("#gg0000"), None);
    assert_eq!(parse_hex_color("é1234"), None);
    assert_eq!(parse_hex_color(""), None);
}

#[test]
fn typing_then_deleting_restores_the_token_form() {
    let mut s = AuthState::new();
    for c in "pk_12".chars() {
        s.add_char(c);
    }
    let token = s.token_input.clone();
    let cursor = s.cursor_pos;
    s.error = Some("bad".into());
    let error = s.error.clone();
    s.add_char('x');
    assert_ne!(s.token_input, token);
    s.remove_char();
    assert_eq!(s.token_input, token);
    assert_eq!(s.cursor_pos, cursor);
    assert_eq!(s.error, error);
    assert!(!s.loading);
}
