use clickdown::commands::{
    auth_status_lines, comment_created_lines, comment_listing, comment_request,
    comment_update_request, comment_updated_lines, doc_listing, exit_code_for_error,
    explore_folder_heading, explore_folderless_lines, explore_heading, explore_list_lines,
    explore_space_heading,
    folder_listing, list_listing, space_listing, task_listing, workspace_listing,
};
use clickdown::models::comment::{Comment, User};
use clickdown::models::document::Document;
use clickdown::models::task::{Priority, Task, TaskStatus};
use clickdown::models::workspace::{Folder, List, Space, Workspace};

fn user(name: &str) -> User {
    User {
        id: 7,
        username: name.into(),
        color: None,
        email: None,
        profile_picture: None,
        initials: None,
    }
}

fn comment(id: &str, text: &str, author: Option<&str>) -> Comment {
    Comment {
        id: id.into(),
        text: text.into(),
        text_preview: String::new(),
        commenter: author.map(user),
        created_at: None,
        updated_at: None,
        assigned_commenter: None,
        assigned_by: None,
        assigned: false,
        reaction: String::new(),
        parent_id: None,
    }
}

fn list(id: &str, name: &str, archived: bool) -> List {
    List {
        id: id.into(),
        name: name.into(),
        content: None,
        description: None,
        archived,
        hidden: false,
        orderindex: None,
        space: None,
        folder: None,
        status: None,
        priority: None,
    }
}

#[test]
fn exit_codes_follow_the_error_message() {
    assert_eq!(exit_code_for_error("401 unauthorized"), 3);
    assert_eq!(exit_code_for_error("authentication failed"), 3);
    assert_eq!(exit_code_for_error("HTTP 403"), 3);
    assert_eq!(exit_code_for_error("network unreachable"), 4);
    assert_eq!(exit_code_for_error("connection refused"), 4);
    assert_eq!(exit_code_for_error("request timeout"), 4);
    assert_eq!(exit_code_for_error("404 not found"), 1);
    assert_eq!(exit_code_for_error("something else"), 1);
    // Authentication wins over network when both occur.
    assert_eq!(exit_code_for_error("network said 401"), 3);
}

#[test]
fn workspace_lines() {
    assert_eq!(workspace_listing(&vec![]), vec!["No workspaces found.".to_string()]);
    let ws = vec![
        Workspace { id: "1".into(), name: "Acme".into(), color: Some("#fff".into()), avatar: None, member_count: None },
        Workspace { id: "2".into(), name: "Zed".into(), color: None, avatar: None, member_count: None },
    ];
    assert_eq!(
        workspace_listing(&ws),
        vec!["1 - Acme (color: #fff)".to_string(), "2 - Zed (color: none)".to_string()]
    );
}

#[test]
fn space_folder_and_list_lines() {
    assert_eq!(space_listing("w9", &vec![]), vec!["No spaces found in workspace w9.".to_string()]);
    let spaces = vec![Space {
        id: "s1".into(),
        name: "Team".into(),
        color: None,
        private: true,
        status: None,
        folders: vec![],
        lists: vec![],
    }];
    assert_eq!(space_listing("w9", &spaces), vec!["s1 - Team (private)".to_string()]);

    assert_eq!(folder_listing("s1", &vec![]), vec!["No folders found in space s1.".to_string()]);
    let folders = vec![Folder {
        id: "f1".into(),
        name: "Plans".into(),
        color: None,
        private: false,
        space: None,
        lists: vec![],
    }];
    assert_eq!(folder_listing("s1", &folders), vec!["f1 - Plans".to_string()]);

    assert_eq!(list_listing("f1", false, &vec![]), vec!["No lists found in folder f1.".to_string()]);
    assert_eq!(
        list_listing("s1", true, &vec![]),
        vec!["No folderless lists found in space s1.".to_string()]
    );
    let lists = vec![list("l1", "Backlog", false), list("l2", "Old", true)];
    assert_eq!(
        list_listing("f1", false, &lists),
        vec!["l1 - Backlog".to_string(), "l2 - Old (archived)".to_string()]
    );
}

#[test]
fn document_lines() {
    assert_eq!(doc_listing("q", &vec![]), vec!["No documents found matching 'q'.".to_string()]);
    let docs = vec![Document {
        id: "d1".into(),
        name: "Spec".into(),
        created_at: None,
        updated_at: None,
        created_by: None,
        updated_by: None,
        space: None,
        folder: None,
        url: None,
        pages: vec![],
    }];
    assert_eq!(doc_listing("q", &docs), vec!["d1 - Spec".to_string()]);
}

#[test]
fn task_lines() {
    assert_eq!(task_listing("l1", &vec![]), vec!["No tasks found in list l1.".to_string()]);
    let mut t = Task::default();
    t.id = "t1".into();
    t.name = "Write".into();
    let mut u = Task::default();
    u.id = "t2".into();
    u.name = "Ship".into();
    u.status = Some(TaskStatus {
        id: None,
        status: "open".into(),
        color: None,
        type_field: None,
        orderindex: None,
        status_group: None,
    });
    u.priority = Some(Priority { priority: "high".into(), color: Some("#f00".into()) });
    assert_eq!(
        task_listing("l1", &vec![t, u]),
        vec![
            "t1 - Write [status: unknown, priority: none]".to_string(),
            "t2 - Ship [status: open, priority: Priority { priority: \"high\", color: Some(\"#f00\") }]"
                .to_string(),
        ]
    );
}

#[test]
fn auth_status() {
    assert_eq!(
        auth_status_lines(Some(3)),
        vec!["Authenticated: yes".to_string(), "Workspace count: 3".to_string()]
    );
    assert_eq!(auth_status_lines(None), vec!["Authenticated: no".to_string()]);
}

#[test]
fn comment_lines() {
    assert_eq!(comment_listing("t1", &vec![]), vec!["No comments found for task t1.".to_string()]);
    let mut edited = comment("c2", "second", None);
    edited.updated_at = Some(5);
    let lines = comment_listing("t1", &vec![comment("c1", "first", Some("ann")), edited]);
    assert_eq!(
        lines,
        vec![
            "Comments for task t1:\n".to_string(),
            "[1] ann - Unknown date".to_string(),
            "    first".to_string(),
            String::new(),
            "[2] Anonymous - Unknown date (edited)".to_string(),
            "    second".to_string(),
            String::new(),
        ]
    );
    let mut dated = comment("c3", "third", Some("bo"));
    dated.created_at = Some(1_700_000_000_000);
    dated.updated_at = Some(1_700_000_000_000);
    let lines = comment_listing("t1", &vec![dated]);
    assert!(lines[1].starts_with("[1] bo - "));
    assert!(!lines[1].ends_with("(edited)"));
    assert!(!lines[1].contains("Unknown date"));
}

#[test]
fn created_and_updated_comment_lines() {
    assert_eq!(
        comment_created_lines(&comment("c1", "hi", Some("ann"))),
        vec!["Comment created: c1".to_string(), "Text: hi".to_string(), "Author: ann".to_string()]
    );
    assert_eq!(
        comment_created_lines(&comment("c1", "hi", None)),
        vec!["Comment created: c1".to_string(), "Text: hi".to_string()]
    );
    assert_eq!(
        comment_updated_lines(&comment("c1", "new", None)),
        vec!["Comment updated: c1".to_string(), "Text: new".to_string()]
    );
}

#[test]
fn comment_requests() {
    let r = comment_request("Hello", None, Some(1), None);
    assert_eq!(r.comment_text, "Hello");
    assert_eq!(r.assignee, Some(1));
    assert_eq!(r.assigned_commenter, None);
    assert_eq!(r.parent_id, None);
    let r = comment_request("Reply", Some("p1"), None, Some(2));
    assert_eq!(r.parent_id.as_deref(), Some("p1"));
    assert_eq!(r.assigned_commenter, Some(2));
    let u = comment_update_request("Updated");
    assert_eq!(u.comment_text.as_deref(), Some("Updated"));
    assert!(u.assigned.is_none() && u.assignee.is_none() && u.assigned_commenter.is_none());
}

#[test]
fn hierarchy_walk_lines() {
    assert_eq!(
        explore_heading("26408409", 2),
        vec!["=== Exploring Workspace: 26408409 ===\n".to_string(), "Found 2 space(s)\n".to_string()]
    );
    let space = Space {
        id: "s1".into(),
        name: "Team".into(),
        color: None,
        private: false,
        status: None,
        folders: vec![],
        lists: vec![],
    };
    assert_eq!(
        explore_space_heading(&space, 0),
        vec!["--- Space: Team (s1) ---".to_string(), "  Folders: 0".to_string()]
    );
    let folder = Folder { id: "f1".into(), name: "Plans".into(), color: None, private: false, space: None, lists: vec![] };
    assert_eq!(
        explore_folder_heading(&folder, 12),
        vec!["    Folder: Plans (f1)".to_string(), "      Lists: 12".to_string()]
    );
    let l = list("l1", "Backlog", false);
    assert_eq!(
        explore_list_lines(&l, &vec![]),
        vec!["        List: Backlog (l1)".to_string(), "          Tasks: 0".to_string()]
    );
    let mut t = Task::default();
    t.id = "t9".into();
    assert_eq!(
        explore_list_lines(&l, &vec![t, Task::default()]),
        vec![
            "        List: Backlog (l1)".to_string(),
            "          Tasks: 2".to_string(),
            "          Sample task ID: t9".to_string(),
        ]
    );
    assert!(explore_folderless_lines(&vec![]).is_empty());
    assert_eq!(
        explore_folderless_lines(&vec![l.clone(), list("l2", "Misc", true)]),
        vec![
            "  Folderless Lists: 2".to_string(),
            "    List: Backlog (l1)".to_string(),
            "    List: Misc (l2)".to_string(),
        ]
    );
}
