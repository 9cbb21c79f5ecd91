//! The navigation state saved between sessions.
use vstd::prelude::*;

use crate::text::owned;
use crate::tui::app::{screen_name_spec, Screen};

verus! {

/// Where the user was: the screen, the ids of the open hierarchy levels and
/// the user's own id (for the "assigned to me" filter).
#[derive(Debug, Clone, PartialEq)]
pub struct SessionState {
    /// The screen's name (Auth, Workspaces, Spaces, Folders, Lists, Tasks,
    /// TaskDetail or Document).
    pub screen: String,
    pub workspace_id: Option<String>,
    pub space_id: Option<String>,
    pub folder_id: Option<String>,
    pub list_id: Option<String>,
    pub task_id: Option<String>,
    pub document_id: Option<String>,
    pub user_id: Option<i32>,
}

impl SessionState {
    /// The session state of the given screen and ids.
    pub fn from_app(
        screen: &Screen,
        workspace_id: Option<String>,
        space_id: Option<String>,
        folder_id: Option<String>,
        list_id: Option<String>,
        task_id: Option<String>,
        document_id: Option<String>,
        user_id: Option<i32>,
    ) -> (s: Self)
        ensures
            s.screen@ == screen_name_spec(*screen),
            s.workspace_id == workspace_id,
            s.space_id == space_id,
            s.folder_id == folder_id,
            s.list_id == list_id,
            s.task_id == task_id,
            s.document_id == document_id,
            s.user_id == user_id,
    {
        SessionState {
            screen: owned(screen.name()),
            workspace_id,
            space_id,
            folder_id,
            list_id,
            task_id,
            document_id,
            user_id,
        }
    }
}

impl Default for SessionState {
    /// The workspaces screen, with nothing open.
    fn default() -> (s: Self)
        ensures
            s.screen@ == "Workspaces"@,
            s.workspace_id is None,
            s.space_id is None,
            s.folder_id is None,
            s.list_id is None,
            s.task_id is None,
            s.document_id is None,
            s.user_id is None,
    {
        SessionState {
            screen: owned("Workspaces"),
            workspace_id: None,
            space_id: None,
            folder_id: None,
            list_id: None,
            task_id: None,
            document_id: None,
            user_id: None,
        }
    }
}

/// The screen a session can be restored to, falling back to the nearest
/// level whose ids were saved, with a message saying so.
pub open spec fn fallback_spec(target: Screen, saved: SessionState) -> (Screen, Option<Seq<char>>) {
    match target {
        Screen::Auth => (Screen::Workspaces, Some("Session cleared, showing workspaces"@)),
        Screen::Document => if saved.document_id is Some {
            (Screen::Document, None)
        } else {
            (Screen::Tasks, Some("Saved document not found, showing tasks"@))
        },
        Screen::TaskDetail => if saved.task_id is Some && saved.list_id is Some {
            (Screen::TaskDetail, None)
        } else {
            (Screen::Tasks, Some("Saved task not found, showing tasks"@))
        },
        Screen::Tasks => if saved.list_id is Some {
            (Screen::Tasks, None)
        } else {
            (Screen::Lists, Some("Saved list not found, showing lists"@))
        },
        Screen::Lists => if saved.folder_id is Some || saved.space_id is Some {
            (Screen::Lists, None)
        } else {
            (Screen::Folders, Some("Saved folder not found, showing folders"@))
        },
        Screen::Folders => if saved.space_id is Some {
            (Screen::Folders, None)
        } else {
            (Screen::Spaces, Some("Saved space not found, showing spaces"@))
        },
        Screen::Spaces => if saved.workspace_id is Some {
            (Screen::Spaces, None)
        } else {
            (Screen::Workspaces, Some("Saved workspace not found, showing workspaces"@))
        },
        Screen::Workspaces => (Screen::Workspaces, None),
    }
}

/// The screen a session can be restored to (see `fallback_spec`).
pub fn apply_session_fallback(target: Screen, saved: &SessionState) -> (r: (Screen, Option<String>))
    ensures
        r.0 == fallback_spec(target, *saved).0,
        match (r.1, fallback_spec(target, *saved).1) {
            (Some(m), Some(n)) => m@ == n,
            (None, None) => true,
            _ => false,
        },
{
    match target {
        Screen::Auth => (Screen::Workspaces, Some(owned("Session cleared, showing workspaces"))),
        Screen::Document => if saved.document_id.is_some() {
            (Screen::Document, None)
        } else {
            (Screen::Tasks, Some(owned("Saved document not found, showing tasks")))
        },
        Screen::TaskDetail => if saved.task_id.is_some() && saved.list_id.is_some() {
            (Screen::TaskDetail, None)
        } else {
            (Screen::Tasks, Some(owned("Saved task not found, showing tasks")))
        },
        Screen::Tasks => if saved.list_id.is_some() {
            (Screen::Tasks, None)
        } else {
            (Screen::Lists, Some(owned("Saved list not found, showing lists")))
        },
        Screen::Lists => if saved.folder_id.is_some() || saved.space_id.is_some() {
            (Screen::Lists, None)
        } else {
            (Screen::Folders, Some(owned("Saved folder not found, showing folders")))
        },
        Screen::Folders => if saved.space_id.is_some() {
            (Screen::Folders, None)
        } else {
            (Screen::Spaces, Some(owned("Saved space not found, showing spaces")))
        },
        Screen::Spaces => if saved.workspace_id.is_some() {
            (Screen::Spaces, None)
        } else {
            (Screen::Workspaces, Some(owned("Saved workspace not found, showing workspaces")))
        },
        Screen::Workspaces => (Screen::Workspaces, None),
    }
}

/// The fallback never goes deeper than the target, and a target restored
/// as it is needs no message.
pub proof fn lemma_fallback_not_deeper(target: Screen, saved: SessionState)
    ensures
        depth(fallback_spec(target, saved).0) <= depth(target) || target == Screen::Auth,
        fallback_spec(target, saved).0 == target <==> fallback_spec(target, saved).1 is None,
{
}

/// How deep a screen lies in the hierarchy.
pub open spec fn depth(s: Screen) -> int {
    match s {
        Screen::Auth => 0,
        Screen::Workspaces => 1,
        Screen::Spaces => 2,
        Screen::Folders => 3,
        Screen::Lists => 4,
        Screen::Tasks => 5,
        Screen::TaskDetail => 6,
        Screen::Document => 6,
    }
}

} // verus!
