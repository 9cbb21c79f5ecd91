use clickdown::models::task::Task;
use clickdown::tui::app::{LinkStep, LinkTarget};
use clickdown::tui::comment_panel::CommentPanel;
use clickdown::tui::widgets::task_list::GroupedTaskList;
use clickdown::models::workspace::{Folder, List, Space, Workspace};
use clickdown::tui::app::{
    get_help_context, get_hints, screen_hints, LoadRequest, Navigator, Screen, TaskCreationField,
};
use clickdown::tui::forms::TaskForm;
use clickdown::tui::keys::{tasks_key, TasksAction};
use clickdown::tui::widgets::task_detail::TaskDetailState;
use clickdown::tui::input::{is_quit, KeyCode, KeyEvent, CONTROL, SHIFT};
use clickdown::tui::widgets::help::{HelpContext, HelpState};
use clickdown::tui::widgets::sidebar::{SidebarItem, SidebarState};

fn ws(id: &str, name: &str) -> Workspace {
    Workspace { id: id.into(), name: name.into(), color: None, avatar: None, member_count: None }
}

fn space(id: &str, name: &str) -> Space {
    Space {
        id: id.into(),
        name: name.into(),
        color: None,
        private: false,
        status: None,
        folders: vec![],
        lists: vec![],
    }
}

fn folder(id: &str, name: &str) -> Folder {
    Folder { id: id.into(), name: name.into(), color: None, private: false, space: None, lists: vec![] }
}

fn list(id: &str, name: &str) -> List {
    List {
        id: id.into(),
        name: name.into(),
        content: None,
        description: None,
        archived: false,
        hidden: false,
        orderindex: None,
        space: None,
        folder: None,
        status: None,
        priority: None,
    }
}

fn navigator() -> Navigator {
    let mut sidebar = SidebarState::new();
    *sidebar.items_mut() = vec![
        SidebarItem::Workspace { name: "Alpha".into(), id: "w1".into() },
        SidebarItem::Workspace { name: "Beta".into(), id: "w2".into() },
    ];
    sidebar.select(Some(1));
    Navigator {
        screen: Screen::Workspaces,
        current_workspace_id: None,
        current_space_id: None,
        current_folder_id: None,
        current_list_id: None,
        workspaces: vec![ws("w1", "Alpha"), ws("w2", "Beta")],
        spaces: vec![space("s1", "Space One")],
        folders: vec![folder("f1", "Folder One")],
        lists: vec![list("l1", "List One")],
        sidebar,
        assigned_filter_active: false,
        screen_title: "ClickDown - Workspaces".into(),
        status: "ready".into(),
    }
}

#[test]
fn enter_then_escape_returns_to_the_entered_workspace() {
    let mut n = navigator();
    let req = n.navigate_into();
    assert_eq!(req, Some(LoadRequest::Spaces("w2".into())));
    assert_eq!(n.screen, Screen::Spaces);
    assert_eq!(n.current_workspace_id.as_deref(), Some("w2"));
    assert_eq!(n.screen_title, "ClickDown - Beta");
    n.navigate_back();
    assert_eq!(n.screen, Screen::Workspaces);
    assert_eq!(n.sidebar.state(), Some(1));
    assert_eq!(n.screen_title, "ClickDown - Workspaces");
    assert_eq!(n.status, "ready");
}

#[test]
fn walking_down_and_up_the_hierarchy() {
    let mut n = navigator();
    n.navigate_into();
    *n.sidebar.items_mut() = vec![SidebarItem::Space { name: "Space One".into(), id: "s1".into() }];
    n.sidebar.select_first();
    assert_eq!(n.navigate_into(), Some(LoadRequest::Folders("s1".into())));
    *n.sidebar.items_mut() = vec![SidebarItem::Folder { name: "Folder One".into(), id: "f1".into() }];
    n.sidebar.select_first();
    assert_eq!(n.navigate_into(), Some(LoadRequest::Lists("f1".into())));
    *n.sidebar.items_mut() = vec![SidebarItem::List { name: "List One".into(), id: "l1".into() }];
    n.sidebar.select_first();
    assert_eq!(n.navigate_into(), Some(LoadRequest::Tasks("l1".into())));
    assert_eq!(n.screen, Screen::Tasks);
    assert_eq!(n.screen_title, "ClickDown - Tasks: List One");

    n.navigate_back();
    assert_eq!(n.screen, Screen::Lists);
    assert!(n.current_list_id.is_none());
    assert_eq!(n.screen_title, "ClickDown - Folder One");
    n.navigate_back();
    assert_eq!(n.screen, Screen::Folders);
    assert_eq!(n.screen_title, "ClickDown - Space One");
    n.navigate_back();
    assert_eq!(n.screen, Screen::Spaces);
    assert_eq!(n.screen_title, "ClickDown - Beta");
    assert_eq!(n.sidebar.state(), Some(0));
    n.navigate_back();
    assert_eq!(n.screen, Screen::Workspaces);
    assert_eq!(n.sidebar.state(), Some(1));
    n.navigate_back();
    assert_eq!(n.screen, Screen::Workspaces);
}

#[test]
fn missing_entry_falls_back_to_first_with_message() {
    let mut n = navigator();
    n.screen = Screen::Spaces;
    n.current_workspace_id = Some("gone".into());
    n.navigate_back();
    assert_eq!(n.sidebar.state(), Some(0));
    assert_eq!(n.status, "Saved workspace not found, showing workspaces");
}

#[test]
fn enter_on_wrong_kind_does_nothing() {
    let mut n = navigator();
    n.screen = Screen::Spaces;
    assert_eq!(n.navigate_into(), None);
    assert_eq!(n.screen, Screen::Spaces);
}

#[test]
fn navigation_keys() {
    let mut n = navigator();
    assert_eq!(n.update_navigation(KeyEvent::plain(KeyCode::Char('j'))), None);
    assert_eq!(n.sidebar.state(), Some(0));
    n.update_navigation(KeyEvent::plain(KeyCode::Up));
    assert_eq!(n.sidebar.state(), Some(1));
    n.update_navigation(KeyEvent::plain(KeyCode::Tab));
    assert!(!n.sidebar.visible);
    assert_eq!(
        n.update_navigation(KeyEvent::plain(KeyCode::Enter)),
        Some(LoadRequest::Spaces("w2".into()))
    );
    n.update_navigation(KeyEvent::plain(KeyCode::Esc));
    assert_eq!(n.screen, Screen::Workspaces);
}

#[test]
fn titles_per_screen() {
    let mut n = navigator();
    n.screen = Screen::Tasks;
    n.assigned_filter_active = true;
    n.update_screen_title(None, "");
    assert_eq!(n.screen_title, "ClickDown - Tasks: List One (Assigned to Me)");
    n.screen = Screen::TaskDetail;
    n.update_screen_title(Some("Fix bug"), "");
    assert_eq!(n.screen_title, "ClickDown - Task: Fix bug");
    n.screen = Screen::Document;
    n.update_screen_title(None, "");
    assert_eq!(n.screen_title, "ClickDown - Document");
    n.update_screen_title(None, "Guide");
    assert_eq!(n.screen_title, "ClickDown - Doc: Guide");
    n.lists.clear();
    n.navigate_back();
    assert_eq!(n.screen, Screen::Tasks);
    assert_eq!(n.screen_title, "ClickDown - Tasks (Assigned to Me)");
}

#[test]
fn hints_and_help_context() {
    let help = HelpState::new();
    assert_eq!(get_help_context(Screen::TaskDetail, true), HelpContext::Comments);
    assert_eq!(get_help_context(Screen::Lists, false), HelpContext::Navigation);
    assert_eq!(
        get_hints(true, true, &help, Screen::Tasks, false, false),
        "←/→: Select | Enter: Confirm | Esc: Cancel"
    );
    assert_eq!(
        get_hints(false, true, &help, Screen::Tasks, false, false),
        "j/k: Navigate | Enter: Select | Esc: Cancel"
    );
    assert_eq!(
        screen_hints(Screen::TaskDetail, true, true),
        "j/k: Navigate | r: Reply | Esc: Back | Tab: Task form | ? - Help"
    );
    let mut open = HelpState::new();
    open.toggle();
    assert_eq!(
        get_hints(false, false, &open, Screen::Auth, false, false),
        "j/k: Pages | Esc: Close | 1/3"
    );
}

#[test]
fn quit_keys() {
    assert!(is_quit(KeyEvent::ctrl(KeyCode::Char('q'))));
    assert!(is_quit(KeyEvent::plain(KeyCode::Char('Q'))));
    assert!(!is_quit(KeyEvent::plain(KeyCode::Char('q'))));
    assert!(!is_quit(KeyEvent { code: KeyCode::Char('q'), modifiers: CONTROL | SHIFT }));
}

use clickdown::models::session::{apply_session_fallback, SessionState};
use clickdown::tui::app::{AppState, SessionRestore, TaskLoad};
use clickdown::tui::widgets::auth::AuthState;
use clickdown::tui::forms::{UrlAction, UrlInput};

fn saved() -> SessionState {
    SessionState {
        screen: "Tasks".into(),
        workspace_id: Some("w2".into()),
        space_id: Some("s1".into()),
        folder_id: Some("f1".into()),
        list_id: Some("l1".into()),
        task_id: None,
        document_id: None,
        user_id: Some(0),
    }
}

#[test]
fn restoring_a_session_walks_down_the_saved_path() {
    let mut n = navigator();
    let mut user = Some(7);
    let mut r = n.begin_restore(&saved(), &mut user);
    assert!(r.restoring);
    assert_eq!(user, Some(7));
    assert_eq!(n.screen, Screen::Workspaces);
    let mut error = None;
    let mut state = AppState::Initializing;
    let req = n.workspaces_loaded(Ok(vec![ws("w1", "Alpha"), ws("w2", "Beta")]), &mut r, &mut error, &mut state);
    assert_eq!(req, Some(LoadRequest::Spaces("w2".into())));
    assert_eq!(state, AppState::Main);
    assert_eq!(n.screen, Screen::Spaces);
    assert_eq!(n.screen_title, "ClickDown - Beta");
    assert_eq!(n.sidebar.state(), Some(1));
    let req = n.spaces_loaded(Ok(vec![space("s0", "Zero"), space("s1", "One")]), &mut r, &mut error);
    assert_eq!(req, Some(LoadRequest::Folders("s1".into())));
    let req = n.folders_loaded(Ok(vec![folder("f1", "F")]), &mut r, &mut error);
    assert_eq!(req, Some(LoadRequest::Lists("f1".into())));
    let req = n.lists_loaded(Ok(vec![list("l1", "Backlog")]), &mut r, &mut error);
    assert_eq!(req, Some(LoadRequest::Tasks("l1".into())));
    assert_eq!(n.screen, Screen::Tasks);
    assert_eq!(n.screen_title, "ClickDown - Tasks: Backlog");
    assert!(r.restoring);
}

#[test]
fn restoring_stops_where_the_saved_entry_is_gone() {
    let mut n = navigator();
    let mut user = None;
    let mut r = n.begin_restore(&saved(), &mut user);
    let mut error = None;
    let mut state = AppState::Initializing;
    n.workspaces_loaded(Ok(vec![ws("w2", "Beta")]), &mut r, &mut error, &mut state);
    let req = n.spaces_loaded(Ok(vec![space("other", "Other")]), &mut r, &mut error);
    assert_eq!(req, None);
    assert!(!r.restoring);
    assert_eq!(n.screen, Screen::Spaces);
    assert_eq!(n.status, "Saved space not found, showing spaces");
    assert_eq!(n.screen_title, "ClickDown - Spaces");
}

#[test]
fn loading_without_restore_and_failures() {
    let mut n = navigator();
    let mut r = SessionRestore {
        restoring: false,
        workspace_id: None,
        space_id: None,
        folder_id: None,
        list_id: None,
        task_id: None,
    };
    let mut error = Some("old".to_string());
    n.current_folder_id = Some("f2".into());
    let req = n.folders_loaded(Ok(vec![folder("f1", "A"), folder("f2", "B")]), &mut r, &mut error);
    assert_eq!(req, None);
    assert_eq!(n.sidebar.state(), Some(1));
    assert_eq!(n.status, "Loaded 2 folder(s)");
    assert!(error.is_none());
    n.lists_loaded(Err("timeout".into()), &mut r, &mut error);
    assert_eq!(n.status, "Failed to load lists");
    assert_eq!(error.as_deref(), Some("Failed to load lists: timeout"));
}

#[test]
fn assigned_filter_toggle() {
    let mut n = navigator();
    assert_eq!(n.toggle_assigned_filter(), None);
    assert!(n.assigned_filter_active);
    n.current_list_id = Some("l1".into());
    assert_eq!(n.toggle_assigned_filter(), Some(TaskLoad::All("l1".into())));
    assert_eq!(n.status, "Showing all tasks");
    assert_eq!(n.toggle_assigned_filter(), Some(TaskLoad::AssignedToMe("l1".into())));
    assert_eq!(n.status, "Filtering: Assigned to Me");
}

#[test]
fn session_fallbacks() {
    let mut s = saved();
    assert_eq!(apply_session_fallback(Screen::Tasks, &s), (Screen::Tasks, None));
    s.list_id = None;
    assert_eq!(
        apply_session_fallback(Screen::Tasks, &s),
        (Screen::Lists, Some("Saved list not found, showing lists".to_string()))
    );
    assert_eq!(
        apply_session_fallback(Screen::TaskDetail, &s),
        (Screen::Tasks, Some("Saved task not found, showing tasks".to_string()))
    );
    assert_eq!(
        apply_session_fallback(Screen::Auth, &s),
        (Screen::Workspaces, Some("Session cleared, showing workspaces".to_string()))
    );
    assert_eq!(apply_session_fallback(Screen::Lists, &s), (Screen::Lists, None));
}

#[test]
fn url_dialog_editing() {
    let mut u = UrlInput::new();
    let mut status = String::new();
    u.open_dialog(false, &mut status);
    assert!(!u.open);
    assert_eq!(status, "Please authenticate first");
    u.open_dialog(true, &mut status);
    assert!(u.open);
    assert_eq!(u.handle_url_input(KeyEvent::plain(KeyCode::Enter)), UrlAction::NoOp);
    assert_eq!(u.error.as_deref(), Some("Please enter a URL"));
    for c in "htp".chars() {
        u.handle_url_input(KeyEvent::plain(KeyCode::Char(c)));
    }
    u.handle_url_input(KeyEvent::plain(KeyCode::Left));
    u.handle_url_input(KeyEvent::plain(KeyCode::Char('t')));
    assert_eq!(u.text, "http");
    assert!(u.error.is_none());
    u.handle_url_input(KeyEvent::plain(KeyCode::Right));
    u.handle_url_input(KeyEvent::plain(KeyCode::Right));
    assert_eq!(u.cursor, 4);
    u.handle_url_input(KeyEvent::plain(KeyCode::Backspace));
    assert_eq!(u.text, "htt");
    assert_eq!(u.handle_url_input(KeyEvent::plain(KeyCode::Enter)), UrlAction::Submit("htt".into()));
    assert!(!u.open && u.text.is_empty());
    u.reject("htt".into(), "bad");
    assert!(u.open);
    assert_eq!(u.cursor, 3);
    assert_eq!(u.error.as_deref(), Some("Unrecognized ClickUp URL format: bad"));
    assert_eq!(u.handle_url_input(KeyEvent::ctrl(KeyCode::Char('v'))), UrlAction::Paste);
    u.handle_url_input(KeyEvent::plain(KeyCode::Esc));
    assert!(!u.open);
}

#[test]
fn test_n_key_opens_task_creation_form() {
    let mut n = navigator();
    n.screen = Screen::Tasks;
    n.current_list_id = Some("test-list-1".to_string());
    let mut form = TaskForm::new();
    form.name = "stale".to_string();
    let mut detail = TaskDetailState::new();

    let n_key = KeyEvent::plain(KeyCode::Char('n'));
    assert_eq!(tasks_key(n_key, false, false), TasksAction::NewTask);
    n.open_task_form(&mut form, &mut detail);

    assert_eq!(n.screen, Screen::TaskDetail, "Should navigate to TaskDetail");
    assert!(detail.creating, "task_detail.creating should be true");
    assert!(detail.task.is_none());
    assert_eq!(form.name, "", "Name input should be empty");
    assert_eq!(form.description, "", "Description input should be empty");
    assert_eq!(form.focus, TaskCreationField::Name, "Focus should be on Name");
    assert!(n.status.contains("Ctrl+S"), "Status should mention Ctrl+S: {}", n.status);
    assert!(n.screen_title.contains("New Task"), "Title should say 'New Task': {}", n.screen_title);
}

#[test]
fn links_open_tasks_and_documents_or_go_back() {
    let mut n = navigator();
    n.task_reached("Fix bug");
    assert_eq!(n.screen, Screen::TaskDetail);
    assert_eq!(n.status, "Navigated to task: Fix bug");
    n.document_reached("Roadmap");
    assert_eq!(n.screen, Screen::Document);
    assert_eq!(n.screen_title, "ClickDown - Roadmap");
    assert_eq!(n.status, "Navigated to document: Roadmap");
    n.link_not_found("Resource", "404", Screen::Workspaces);
    assert_eq!(n.screen, Screen::Workspaces);
    assert_eq!(n.status, "Resource not found: 404");
    n.link_not_found("Document", "gone", Screen::Tasks);
    assert_eq!(n.status, "Document not found: gone");
}

#[test]
fn created_task_returns_to_the_list() {
    let mut n = navigator();
    n.screen = Screen::TaskDetail;
    n.current_list_id = Some("l1".into());
    let mut form = TaskForm::new();
    let mut detail = TaskDetailState::new();
    n.open_task_form(&mut form, &mut detail);
    form.name = "Write docs".into();
    let mut error = None;
    let load = n.task_created(Ok("Write docs".into()), &mut form, &mut detail, &mut error);
    assert_eq!(load, Some(TaskLoad::All("l1".into())));
    assert_eq!(n.screen, Screen::Tasks);
    assert_eq!(n.status, "Task created: Write docs");
    assert_eq!(n.screen_title, "ClickDown - Tasks: List One");
    assert_eq!(form.name, "");
    assert!(!detail.creating);
    assert!(error.is_none());

    n.assigned_filter_active = true;
    let load = n.task_created(Ok("x".into()), &mut form, &mut detail, &mut error);
    assert_eq!(load, Some(TaskLoad::AssignedToMe("l1".into())));

    detail.creating = true;
    form.name = "kept".into();
    let load = n.task_created(Err("500".into()), &mut form, &mut detail, &mut error);
    assert_eq!(load, None);
    assert_eq!(n.status, "Task creation failed");
    assert_eq!(error.as_deref(), Some("Failed to create task: 500"));
    assert_eq!(form.name, "kept");
    assert!(detail.creating);
}

#[test]
fn stored_token_opens_the_workspaces() {
    let mut n = navigator();
    n.screen = Screen::Auth;
    let mut auth = AuthState::new();
    auth.add_char('x');
    auth.loading = true;
    let mut state = AppState::Unauthenticated;
    assert!(!n.token_saved(Err("disk full".into()), &mut auth, &mut state));
    assert_eq!(auth.error.as_deref(), Some("Failed to save token: disk full"));
    assert!(!auth.loading);
    assert_eq!(auth.token_input, "x");
    assert_eq!(state, AppState::Unauthenticated);
    assert_eq!(n.status, "Failed to save token");
    assert_eq!(n.screen, Screen::Auth);

    assert!(n.token_saved(Ok(()), &mut auth, &mut state));
    assert_eq!(auth.token_input, "");
    assert!(auth.error.is_none());
    assert_eq!(state, AppState::Main);
    assert_eq!(n.screen, Screen::Workspaces);
    assert_eq!(n.screen_title, "ClickDown - Workspaces");
    assert_eq!(n.status, "Authenticated! Loading workspaces...");
}

#[test]
fn links_jump_through_the_hierarchy() {
    let mut n = navigator();
    // Already on the selected workspace.
    n.navigate_to_workspace("w2");
    assert_eq!(n.status, "Already viewing this workspace");
    assert_eq!(n.sidebar.state(), Some(1));

    n.current_space_id = Some("s1".into());
    n.navigate_to_workspace("w1");
    assert_eq!(n.screen, Screen::Workspaces);
    assert_eq!(n.current_workspace_id.as_deref(), Some("w1"));
    assert_eq!(n.current_space_id, None);
    assert_eq!(n.sidebar.state(), Some(0));
    assert_eq!(n.status, "Navigated to workspace: Alpha");

    n.navigate_to_workspace("nope");
    assert_eq!(n.current_workspace_id, None);
    assert_eq!(n.status, "Workspace not found in current workspace list");

    assert_eq!(n.navigate_to_space("w1", "s1"), None);
    assert_eq!(n.screen, Screen::Spaces);
    assert_eq!(n.current_space_id.as_deref(), Some("s1"));
    assert_eq!(n.status, "Navigated to space: Space One");
    assert_eq!(n.navigate_to_space("w1", "s9"), Some(LoadRequest::Spaces("w1".into())));
    assert_eq!(n.current_space_id, None);
    assert_eq!(n.status, "Loading spaces...");

    n.navigate_to_folder("w1", "f1");
    assert_eq!(n.screen, Screen::Folders);
    assert_eq!(n.current_folder_id.as_deref(), Some("f1"));
    assert_eq!(n.status, "Navigated to folder: Folder One");
    n.navigate_to_folder("w1", "f9");
    assert_eq!(n.current_folder_id, None);
    assert_eq!(n.status, "Folder not found in current folder list");

    n.navigate_to_list("w1", "l1");
    assert_eq!(n.screen, Screen::Lists);
    assert_eq!(n.current_list_id.as_deref(), Some("l1"));
    assert_eq!(n.status, "Navigated to list: List One");
    n.navigate_to_list("w1", "l9");
    assert_eq!(n.current_list_id, None);
    assert_eq!(n.status, "List not found in current list");
}

#[test]
fn current_user_reloads_only_a_filtered_list() {
    let mut nav = navigator();
    let mut user: Option<i32> = None;
    assert_eq!(nav.current_user_loaded(Ok(42), &mut user), None);
    assert_eq!(user, Some(42));
    nav.assigned_filter_active = true;
    assert_eq!(nav.current_user_loaded(Ok(7), &mut user), None);
    nav.current_list_id = Some("l1".into());
    assert_eq!(nav.current_user_loaded(Ok(7), &mut user), Some("l1".to_string()));
    assert_eq!(user, Some(7));
    assert_eq!(nav.current_user_loaded(Err("offline".into()), &mut user), None);
    assert_eq!(user, Some(7));
    // Ids are kept as `i32`, as the filter sends them.
    nav.assigned_filter_active = false;
    nav.current_user_loaded(Ok((1i64 << 32) + 5), &mut user);
    assert_eq!(user, Some(5));
}

#[test]
fn link_target_per_screen() {
    let mut nav = navigator();
    let list = GroupedTaskList::from_tasks(vec![]);
    let panel = CommentPanel::new();
    let none: Option<Task> = None;
    match nav.link_target(&list, &none, &panel, &None) {
        Ok(LinkTarget::Workspace { workspace_id }) => assert_eq!(workspace_id, "w2"),
        other => panic!("unexpected {:?}", other),
    }
    nav.screen = Screen::Auth;
    assert_eq!(
        nav.link_target(&list, &none, &panel, &None).unwrap_err(),
        "URL copy not available on auth screen"
    );
    nav.screen = Screen::Spaces;
    assert_eq!(nav.link_target(&list, &none, &panel, &None).unwrap_err(), "Missing workspace context");
    nav.current_workspace_id = Some("w1".into());
    match nav.link_target(&list, &none, &panel, &None) {
        Ok(LinkTarget::Space { workspace_id, space_id }) => {
            assert_eq!(workspace_id, "w1");
            assert_eq!(space_id, "w2");
        }
        other => panic!("unexpected {:?}", other),
    }
    nav.screen = Screen::Tasks;
    assert_eq!(nav.link_target(&list, &none, &panel, &None).unwrap_err(), "No task selected");
    let task = Task { id: "t9".into(), ..Default::default() };
    let tasks = GroupedTaskList::from_tasks(vec![task.clone()]);
    match nav.link_target(&tasks, &none, &panel, &None) {
        Ok(LinkTarget::Task { task_id }) => assert_eq!(task_id, "t9"),
        other => panic!("unexpected {:?}", other),
    }
    nav.screen = Screen::TaskDetail;
    assert_eq!(nav.link_target(&list, &none, &panel, &None).unwrap_err(), "No task selected");
    match nav.link_target(&list, &Some(task.clone()), &panel, &None) {
        Ok(LinkTarget::Task { task_id }) => assert_eq!(task_id, "t9"),
        other => panic!("unexpected {:?}", other),
    }
    nav.screen = Screen::Document;
    assert_eq!(nav.link_target(&list, &none, &panel, &None).unwrap_err(), "No document selected");
    match nav.link_target(&list, &none, &panel, &Some("d1".to_string())) {
        Ok(LinkTarget::Document { doc_id }) => assert_eq!(doc_id, "d1"),
        other => panic!("unexpected {:?}", other),
    }
}

#[test]
fn following_links() {
    let mut nav = navigator();
    let step = nav.follow_link(LinkTarget::Workspace { workspace_id: "w1".into() }, true);
    assert!(matches!(step, LinkStep::Done));
    assert_eq!(nav.screen, Screen::Workspaces);
    assert_eq!(nav.current_workspace_id, Some("w1".to_string()));

    let step = nav.follow_link(LinkTarget::Space { workspace_id: "w1".into(), space_id: "s1".into() }, true);
    assert!(matches!(step, LinkStep::Done));
    assert_eq!(nav.screen, Screen::Spaces);
    assert_eq!(nav.current_space_id, Some("s1".to_string()));

    let step = nav.follow_link(LinkTarget::Space { workspace_id: "w2".into(), space_id: "s9".into() }, true);
    assert!(matches!(step, LinkStep::Load(LoadRequest::Spaces(ref w)) if w == "w2"));
    assert_eq!(nav.status, "Loading spaces...");

    let before = nav.screen;
    let step = nav.follow_link(LinkTarget::Task { task_id: "t1".into() }, false);
    assert!(matches!(step, LinkStep::Done));
    assert_eq!(nav.status, "Not authenticated");
    assert_eq!(nav.screen, before);
    match nav.follow_link(LinkTarget::Comment { task_id: "t1".into(), comment_id: "c1".into() }, true) {
        LinkStep::FetchComment { task_id, comment_id } => {
            assert_eq!(task_id, "t1");
            assert_eq!(comment_id, "c1");
        }
        other => panic!("unexpected {:?}", other),
    }
    match nav.follow_link(LinkTarget::Document { doc_id: "d1".into() }, true) {
        LinkStep::FetchDocument { doc_id } => assert_eq!(doc_id, "d1"),
        other => panic!("unexpected {:?}", other),
    }
}
