use clickdown::models::comment::{Comment, User};
use clickdown::tui::app::{CommentViewMode, CommentsLoadedResponse};
use clickdown::tui::comment_panel::{comments_with_replies, CommentAction, CommentPanel, DetailAction};
use clickdown::tui::input::{KeyCode, KeyEvent};

fn comment(id: &str, text: &str, parent: Option<&str>, author: Option<&str>) -> Comment {
    Comment {
        id: id.into(),
        text: text.into(),
        text_preview: String::new(),
        commenter: author.map(|a| User {
            id: 1,
            username: a.into(),
            color: None,
            email: None,
            profile_picture: None,
            initials: None,
        }),
        created_at: None,
        updated_at: None,
        assigned_commenter: None,
        assigned_by: None,
        assigned: false,
        reaction: String::new(),
        parent_id: parent.map(|p| p.to_string()),
    }
}

fn panel() -> CommentPanel {
    let mut p = CommentPanel::new();
    let mut status = String::new();
    let mut error = None;
    p.comments_loaded(
        Ok(CommentsLoadedResponse {
            all_comments: vec![
                comment("c1", "first", None, Some("ann")),
                comment("c2", "second", None, None),
                comment("r1", "reply", Some("c1"), Some("bob")),
            ],
            top_level_comments: 2,
        }),
        &mut status,
        &mut error,
    );
    assert_eq!(status, "Loaded 3 comment(s)");
    p.focus = true;
    p
}

fn key(c: KeyCode) -> KeyEvent {
    KeyEvent::plain(c)
}

#[test]
fn top_level_navigation_wraps() {
    let mut p = panel();
    let mut status = String::new();
    p.handle_detail_key(key(KeyCode::Char('j')), true, &mut status);
    assert_eq!(p.selected_index, 1);
    p.handle_detail_key(key(KeyCode::Char('j')), true, &mut status);
    assert_eq!(p.selected_index, 0);
    p.handle_detail_key(key(KeyCode::Char('k')), true, &mut status);
    assert_eq!(p.selected_index, 1);
}

#[test]
fn thread_round_trip_restores_selection() {
    let mut p = panel();
    let mut status = String::new();
    assert_eq!(p.handle_detail_key(key(KeyCode::Enter), true, &mut status), DetailAction::NoOp);
    assert_eq!(
        p.view_mode,
        CommentViewMode::InThread { parent_comment_id: "c1".into(), parent_author: "ann".into() }
    );
    assert_eq!(status, "Viewing thread. Press Esc to go back");
    p.handle_detail_key(key(KeyCode::Char('j')), true, &mut status);
    p.handle_detail_key(key(KeyCode::Char('j')), true, &mut status);
    assert_eq!(p.selected_index, 2);
    p.handle_detail_key(key(KeyCode::Char('r')), true, &mut status);
    assert_eq!(status, "Replying to ann (Ctrl+S save, Esc cancel)");
    assert_eq!(p.editing_index, Some(usize::MAX));
    p.editing_index = None;
    p.handle_detail_key(key(KeyCode::Esc), true, &mut status);
    assert_eq!(p.view_mode, CommentViewMode::TopLevel);
    assert_eq!(p.selected_index, 0);
    assert_eq!(p.previous_selection, None);
    assert_eq!(status, "Back to top-level comments");
}

#[test]
fn writing_and_saving_a_reply() {
    let mut p = panel();
    let mut status = String::new();
    p.handle_detail_key(key(KeyCode::Enter), true, &mut status);
    p.handle_detail_key(key(KeyCode::Char('r')), true, &mut status);
    let task = "T9".to_string();
    for c in "ok!".chars() {
        p.handle_comment_input(key(KeyCode::Char(c)), Some(&task), &mut status);
    }
    p.handle_comment_input(key(KeyCode::Backspace), Some(&task), &mut status);
    assert_eq!(p.new_text, "ok");
    let act = p.handle_comment_input(KeyEvent::ctrl(KeyCode::Char('s')), Some(&task), &mut status);
    assert_eq!(
        act,
        CommentAction::CreateComment {
            task_id: "T9".into(),
            text: "ok".into(),
            parent_id: Some("c1".into())
        }
    );
    let mut error = None;
    p.comment_created(Ok(comment("r2", "ok", Some("c1"), None)), true, &mut status, &mut error);
    assert_eq!(p.comments[0].id, "r2");
    assert_eq!(p.comments.len(), 4);
    assert_eq!(p.top_level_count, 2);
    assert_eq!(status, "Reply added");
    assert!(!p.is_editing());
}

#[test]
fn blank_text_is_refused() {
    let mut p = panel();
    let mut status = String::new();
    p.handle_detail_key(key(KeyCode::Char('n')), true, &mut status);
    assert_eq!(status, "Type comment (Ctrl+S save, Esc cancel)");
    p.handle_comment_input(key(KeyCode::Char(' ')), Some(&"T".to_string()), &mut status);
    let act =
        p.handle_comment_input(KeyEvent::ctrl(KeyCode::Char('s')), Some(&"T".to_string()), &mut status);
    assert_eq!(act, CommentAction::NoOp);
    assert_eq!(status, "Comment cannot be empty");
    p.handle_comment_input(key(KeyCode::Esc), None, &mut status);
    assert_eq!(status, "Comment editing cancelled");
    assert!(!p.is_editing());
}

#[test]
fn editing_an_existing_comment() {
    let mut p = panel();
    let mut status = String::new();
    p.handle_detail_key(key(KeyCode::Char('j')), true, &mut status);
    p.handle_detail_key(key(KeyCode::Char('e')), true, &mut status);
    assert_eq!(p.new_text, "second");
    assert_eq!(p.editing_index, Some(1));
    p.handle_comment_input(key(KeyCode::Char('!')), Some(&"T".to_string()), &mut status);
    let act =
        p.handle_comment_input(KeyEvent::ctrl(KeyCode::Char('s')), Some(&"T".to_string()), &mut status);
    assert_eq!(act, CommentAction::UpdateComment { comment_id: "c2".into(), text: "second!".into() });
    let mut error = None;
    p.comment_updated(Ok(comment("c2", "second!", None, None)), &mut status, &mut error);
    assert_eq!(p.comments[1].text, "second!");
    assert_eq!(status, "Comment updated");
    p.comment_updated(Err("boom".into()), &mut status, &mut error);
    assert_eq!(error.as_deref(), Some("Failed to update comment: boom"));
    assert_eq!(status, "Failed to update comment");
}

#[test]
fn task_keys_and_focus() {
    let mut p = panel();
    p.focus = false;
    let mut status = String::new();
    assert_eq!(
        p.handle_detail_key(key(KeyCode::Char('e')), true, &mut status),
        DetailAction::StartEditingTask
    );
    assert_eq!(
        p.handle_detail_key(key(KeyCode::Char('A')), true, &mut status),
        DetailAction::OpenAssigneePicker
    );
    assert_eq!(
        p.handle_detail_key(key(KeyCode::Char('s')), false, &mut status),
        DetailAction::NoOp
    );
    assert_eq!(status, "No task selected");
    assert_eq!(
        p.handle_detail_key(KeyEvent::ctrl(KeyCode::Char('s')), true, &mut status),
        DetailAction::StopEditingTask
    );
    assert_eq!(status, "Save task - coming soon");
    p.handle_detail_key(key(KeyCode::Tab), true, &mut status);
    assert!(p.focus);
    assert_eq!(status, "Focus: Comments (j/k navigate, n new, e edit)");
    assert_eq!(p.handle_detail_key(key(KeyCode::Esc), true, &mut status), DetailAction::ExitToTasks);
}

#[test]
fn failed_loads_and_creates() {
    let mut p = panel();
    let mut status = String::new();
    let mut error = None;
    p.comment_created(Err("offline".into()), false, &mut status, &mut error);
    assert_eq!(status, "Failed to create comment");
    assert_eq!(error.as_deref(), Some("Failed to create comment: offline"));
    p.comments_loaded(Err("nope".into()), &mut status, &mut error);
    assert!(p.comments.is_empty());
    assert_eq!(error.as_deref(), Some("Failed to load comments: nope"));
}

#[test]
fn link_to_a_comment_selects_it() {
    let mut p = CommentPanel::new();
    let mut status = String::new();
    let long = "x".repeat(50);
    p.comments_loaded_for_navigation(
        Ok(vec![comment("a", "short", None, None), comment("b", &long, None, None)]),
        "b",
        &mut status,
    );
    assert_eq!(p.selected_index, 1);
    assert_eq!(p.view_mode, CommentViewMode::TopLevel);
    assert_eq!(status, format!("Navigated to comment: {}", "x".repeat(40)));

    p.comments_loaded_for_navigation(Ok(vec![comment("a", "short", None, None)]), "a", &mut status);
    assert_eq!(p.selected_index, 0);
    assert_eq!(status, "Navigated to comment: short");

    p.comments_loaded_for_navigation(Ok(vec![comment("a", "short", None, None)]), "zz", &mut status);
    assert_eq!(status, "Comment not found in task");
    assert_eq!(p.comments.len(), 1);

    p.comments_loaded_for_navigation(Err("boom".into()), "a", &mut status);
    assert_eq!(status, "Failed to load comments: boom");
}

#[test]
fn replies_follow_the_top_level_comments() {
    let top = vec![comment("c1", "first", None, None), comment("c2", "second", None, None)];
    let replies = vec![
        Some(vec![comment("r1", "one", None, None), comment("r2", "two", None, None)]),
        None,
    ];
    let r = comments_with_replies(top, replies);
    assert_eq!(r.top_level_comments, 2);
    let ids: Vec<&str> = r.all_comments.iter().map(|c| c.id.as_str()).collect();
    assert_eq!(ids, vec!["c1", "c2", "r1", "r2"]);
    assert_eq!(r.all_comments[2].parent_id.as_deref(), Some("c1"));
    assert_eq!(r.all_comments[3].parent_id.as_deref(), Some("c1"));
    assert_eq!(r.all_comments[1].parent_id, None);
}
