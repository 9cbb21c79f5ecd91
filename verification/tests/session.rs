use clickdown::models::session::SessionState;
use clickdown::tui::app::Screen;

#[test]
fn test_session_state_default() {
    let state = SessionState::default();
    assert_eq!(state.screen, "Workspaces");
    assert!(state.workspace_id.is_none());
    assert!(state.space_id.is_none());
    assert!(state.folder_id.is_none());
    assert!(state.list_id.is_none());
    assert!(state.task_id.is_none());
    assert!(state.document_id.is_none());
}

#[test]
fn test_session_state_includes_user_id() {


    let state = SessionState::from_app(
        &Screen::Tasks,
        Some("ws-123".to_string()),
        None,
        None,
        None,
        None,
        None,
        Some(456),
    );

    assert_eq!(state.user_id, Some(456));
    assert_eq!(state.workspace_id, Some("ws-123".to_string()));
}


#[test]
fn session_state_records_screen_names() {
    let screens = [
        (Screen::Auth, "Auth"),
        (Screen::Workspaces, "Workspaces"),
        (Screen::Spaces, "Spaces"),
        (Screen::Folders, "Folders"),
        (Screen::Lists, "Lists"),
        (Screen::Tasks, "Tasks"),
        (Screen::TaskDetail, "TaskDetail"),
        (Screen::Document, "Document"),
    ];
    for (screen, name) in screens {
        let s = SessionState::from_app(&screen, None, None, None, None, None, None, None);
        assert_eq!(s.screen, name);
        assert_eq!(s.screen, format!("{:?}", screen));
    }
}
