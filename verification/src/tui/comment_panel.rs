//! The comments of an open task: navigation, threads, writing and editing,
//! and the updates that loaded, created and edited comments bring.
//!
//! A comment being written is marked by `editing_index == Some(usize::MAX)`;
//! `Some(i)` for any other `i` edits the comment at index `i`.
use vstd::prelude::*;

use crate::models::comment::Comment;
use crate::text::{
    boundary_chars, int_decimal, is_byte_boundary, owned, pop_char, push_char, push_str, str_byte_len,
    str_trim, take_bytes, trimmed, u64_to_string, utf8_len,
};
use crate::tui::app::{CommentViewMode, CommentsLoadedResponse};
use crate::tui::input::{has_control, KeyCode, KeyEvent};

verus! {

/// The comment list of the task detail screen.
#[derive(Debug, Clone)]
pub struct CommentPanel {
    pub comments: Vec<Comment>,
    /// How many of the comments are top-level (they come first).
    pub top_level_count: usize,
    pub selected_index: usize,
    /// The selection to return to when leaving a thread.
    pub previous_selection: Option<usize>,
    pub view_mode: CommentViewMode,
    /// Whether the comments (rather than the task form) have the focus.
    pub focus: bool,
    pub editing_index: Option<usize>,
    pub new_text: String,
}

/// What the caller has to send after a key in the comments.
#[derive(Debug, Clone, PartialEq)]
pub enum CommentAction {
    NoOp,
    /// Post a new comment (a reply when `parent_id` is given).
    CreateComment { task_id: String, text: String, parent_id: Option<String> },
    /// Change the text of a comment.
    UpdateComment { comment_id: String, text: String },
}

/// What the caller has to do after a key on the task detail screen.
#[derive(Debug, Clone, Copy, PartialEq, Eq, Structural)]
pub enum DetailAction {
    NoOp,
    /// Leave the task for the task list.
    ExitToTasks,
    /// Start editing the task.
    StartEditingTask,
    /// Stop editing the task (saving is not offered yet).
    StopEditingTask,
    /// Ask whether to delete the task.
    ShowDeleteDialog,
    /// Open the status picker for the task.
    OpenStatusPicker,
    /// Open the assignee picker for the task.
    OpenAssigneePicker,
}

/// Whether a comment or a reply is being written or edited.
pub open spec fn is_editing(p: CommentPanel) -> bool {
    p.editing_index is Some || p.new_text@.len() > 0
}

/// Whether a thread is open.
pub open spec fn in_thread(p: CommentPanel) -> bool {
    p.view_mode is InThread
}

/// Whether a text holds nothing but whitespace.
pub open spec fn blank(t: Seq<char>) -> bool {
    trimmed(t).len() == 0
}

/// The parent of a comment written in a view mode: the open thread's
/// comment, or none at the top level.
pub open spec fn parent_of(m: CommentViewMode) -> Option<String> {
    match m {
        CommentViewMode::InThread { parent_comment_id, .. } => Some(parent_comment_id),
        CommentViewMode::TopLevel => None,
    }
}

/// The message for an empty comment or reply.
pub open spec fn empty_text_message(p: CommentPanel) -> Seq<char> {
    if in_thread(p) {
        "Reply cannot be empty"@
    } else {
        "Comment cannot be empty"@
    }
}

/// Saving (Control+S) while writing: with a task open and a text that is
/// not blank, a new comment or reply is posted, or the edited comment is
/// changed; a blank text only sets a message. The panel itself stays as it
/// is until the server answers. The second part is the new status message,
/// if any.
pub open spec fn save_outcome(p: CommentPanel, task_id: Option<String>) -> (
    CommentAction,
    Option<Seq<char>>,
) {
    let creating = match p.editing_index {
        Some(i) => i == usize::MAX,
        None => p.new_text@.len() > 0,
    };
    match task_id {
        None => (CommentAction::NoOp, None),
        Some(t) => if creating {
            if blank(p.new_text@) {
                (CommentAction::NoOp, Some(empty_text_message(p)))
            } else {
                (
                    CommentAction::CreateComment {
                        task_id: t,
                        text: p.new_text,
                        parent_id: parent_of(p.view_mode),
                    },
                    None,
                )
            }
        } else {
            match p.editing_index {
                Some(i) => if blank(p.new_text@) {
                    (CommentAction::NoOp, Some("Comment cannot be empty"@))
                } else {
                    (
                        CommentAction::UpdateComment {
                            comment_id: p.comments@[i as int].id,
                            text: p.new_text,
                        },
                        None,
                    )
                },
                None => (CommentAction::NoOp, None),
            }
        },
    }
}

/// Whether saving would edit a comment at an index the list does not have.
pub open spec fn save_out_of_range(p: CommentPanel, task_id: Option<String>) -> bool {
    &&& task_id is Some
    &&& p.editing_index matches Some(i) && i != usize::MAX && i >= p.comments@.len()
    &&& !blank(p.new_text@)
}

/// A key while writing: Control+S saves, Esc cancels, a character is typed,
/// Backspace erases the last one.
pub open spec fn input_post(
    a: CommentPanel,
    b: CommentPanel,
    key: KeyEvent,
    task_id: Option<String>,
    sa: Seq<char>,
    sb: Seq<char>,
    act: CommentAction,
) -> bool {
    if key.code == KeyCode::Char('s') && has_control(key) {
        let (x, msg) = save_outcome(a, task_id);
        &&& b == a
        &&& act == x
        &&& sb == match msg {
            Some(m) => m,
            None => sa,
        }
    } else {
        &&& act == CommentAction::NoOp
        &&& match key.code {
            KeyCode::Esc => {
                &&& b == CommentPanel { new_text: b.new_text, editing_index: None, ..a }
                &&& b.new_text@.len() == 0
                &&& sb == if in_thread(a) {
                    "Reply cancelled"@
                } else {
                    "Comment editing cancelled"@
                }
            },
            KeyCode::Char(c) => {
                &&& b == CommentPanel { new_text: b.new_text, ..a }
                &&& b.new_text@ == a.new_text@.push(c)
                &&& sb == sa
            },
            KeyCode::Backspace => {
                &&& b == CommentPanel { new_text: b.new_text, ..a }
                &&& b.new_text@ == if a.new_text@.len() > 0 {
                    a.new_text@.drop_last()
                } else {
                    a.new_text@
                }
                &&& sb == sa
            },
            _ => b == a && sb == sa,
        }
    }
}

/// The status shown when the focus moves.
pub open spec fn focus_message(focus: bool) -> Seq<char> {
    if focus {
        "Focus: Comments (j/k navigate, n new, e edit)"@
    } else {
        "Focus: Task form"@
    }
}

/// The author shown for a thread.
pub open spec fn author_of(c: Comment) -> Seq<char> {
    match c.commenter {
        Some(u) => u.username@,
        None => "Unknown"@,
    }
}

/// A key on the task detail screen when nothing is being written.
///
/// Esc leaves an open thread (restoring the selection it was opened from),
/// or cancels writing, or leaves the task. With the focus on the comments,
/// j/k move through the top-level comments (wrapping) or down and up a
/// thread, n starts a comment, e edits the selected one, Enter opens the
/// thread of a top-level comment and r starts a reply in a thread. Tab moves
/// the focus; e and A (task form focused), d, s and Control+S act on the
/// task.
pub open spec fn detail_post(
    a: CommentPanel,
    b: CommentPanel,
    key: KeyEvent,
    task_present: bool,
    sa: Seq<char>,
    sb: Seq<char>,
    act: DetailAction,
) -> bool {
    let n = a.comments@.len();
    let k = key.code;
    if k == KeyCode::Esc {
        if in_thread(a) {
            &&& b == CommentPanel {
                view_mode: CommentViewMode::TopLevel,
                selected_index: match a.previous_selection {
                    Some(s) => s,
                    None => 0,
                },
                previous_selection: None,
                ..a
            }
            &&& sb == "Back to top-level comments"@
            &&& act == DetailAction::NoOp
        } else if is_editing(a) {
            &&& b == CommentPanel { new_text: b.new_text, editing_index: None, ..a }
            &&& b.new_text@.len() == 0
            &&& sb == "Comment editing cancelled"@
            &&& act == DetailAction::NoOp
        } else {
            b == a && sb == sa && act == DetailAction::ExitToTasks
        }
    } else if k == KeyCode::Char('e') && !a.focus {
        b == a && sb == sa && act == DetailAction::StartEditingTask
    } else if k == KeyCode::Char('d') {
        b == a && sb == sa && act == DetailAction::ShowDeleteDialog
    } else if k == KeyCode::Char('s') && has_control(key) {
        b == a && sb == "Save task - coming soon"@ && act == DetailAction::StopEditingTask
    } else if k == KeyCode::Char('s') {
        if task_present {
            b == a && sb == sa && act == DetailAction::OpenStatusPicker
        } else {
            b == a && sb == "No task selected"@ && act == DetailAction::NoOp
        }
    } else if k == KeyCode::Char('A') && !a.focus {
        b == a && sb == sa && act == DetailAction::OpenAssigneePicker
    } else if k == KeyCode::Tab {
        &&& b == CommentPanel { focus: !a.focus, ..a }
        &&& sb == focus_message(!a.focus)
        &&& act == DetailAction::NoOp
    } else if k == KeyCode::Char('j') && a.focus {
        &&& b == CommentPanel {
            selected_index: if n == 0 {
                a.selected_index
            } else if !in_thread(a) {
                if a.selected_index + 1 < a.top_level_count {
                    (a.selected_index + 1) as usize
                } else {
                    0
                }
            } else {
                (a.selected_index + 1) as usize
            },
            ..a
        }
        &&& sb == sa
        &&& act == DetailAction::NoOp
    } else if k == KeyCode::Char('k') && a.focus {
        &&& b == CommentPanel {
            selected_index: if a.selected_index > 0 {
                (a.selected_index - 1) as usize
            } else if !in_thread(a) && a.top_level_count > 0 {
                (a.top_level_count - 1) as usize
            } else {
                a.selected_index
            },
            ..a
        }
        &&& sb == sa
        &&& act == DetailAction::NoOp
    } else if k == KeyCode::Char('n') && a.focus {
        &&& b == CommentPanel { new_text: b.new_text, editing_index: Some(usize::MAX), ..a }
        &&& b.new_text@.len() == 0
        &&& sb == "Type comment (Ctrl+S save, Esc cancel)"@
        &&& act == DetailAction::NoOp
    } else if k == KeyCode::Char('e') {
        if a.selected_index < n {
            &&& b == CommentPanel {
                new_text: a.comments@[a.selected_index as int].text,
                editing_index: Some(a.selected_index),
                ..a
            }
            &&& sb == "Editing comment (Ctrl+S save, Esc cancel)"@
            &&& act == DetailAction::NoOp
        } else {
            b == a && sb == sa && act == DetailAction::NoOp
        }
    } else if k == KeyCode::Enter && a.focus {
        if !in_thread(a) && a.selected_index < n && a.comments@[a.selected_index as int].parent_id is None {
            let c = a.comments@[a.selected_index as int];
            &&& b == CommentPanel {
                previous_selection: Some(a.selected_index),
                view_mode: b.view_mode,
                ..a
            }
            &&& b.view_mode matches CommentViewMode::InThread { parent_comment_id, parent_author }
                && parent_comment_id == c.id && parent_author@ == author_of(c)
            &&& sb == "Viewing thread. Press Esc to go back"@
            &&& act == DetailAction::NoOp
        } else {
            b == a && sb == sa && act == DetailAction::NoOp
        }
    } else if k == KeyCode::Char('r') && a.focus {
        match a.view_mode {
            CommentViewMode::InThread { parent_author, .. } => {
                &&& b == CommentPanel { new_text: b.new_text, editing_index: Some(usize::MAX), ..a }
                &&& b.new_text@.len() == 0
                &&& sb == "Replying to "@ + parent_author@ + " (Ctrl+S save, Esc cancel)"@
                &&& act == DetailAction::NoOp
            },
            CommentViewMode::TopLevel => {
                &&& b == a
                &&& sb == "Press Enter to view thread, then 'r' to reply"@
                &&& act == DetailAction::NoOp
            },
        }
    } else {
        b == a && sb == sa && act == DetailAction::NoOp
    }
}

/// The index of the first comment with the given id.
pub open spec fn index_of_id(cs: Seq<Comment>, id: Seq<char>) -> Option<int> {
    if exists|i: int| 0 <= i < cs.len() && (#[trigger] cs[i]).id@ == id {
        Some(
            choose|i: int|
                0 <= i < cs.len() && cs[i].id@ == id && forall|j: int|
                    0 <= j < i ==> (#[trigger] cs[j]).id@ != id,
        )
    } else {
        None
    }
}

/// How many bytes of a comment are shown when a link leads to it.
pub open spec fn preview_len(t: Seq<char>) -> int {
    if utf8_len(t) < 40 {
        utf8_len(t) as int
    } else {
        40
    }
}

/// The index of the first comment with the id.
fn find_comment(cs: &Vec<Comment>, id: &str) -> (r: Option<usize>)
    ensures
        r matches Some(k) ==> k < cs@.len(),
        match r {
            Some(k) => index_of_id(cs@, id@) == Some(k as int),
            None => index_of_id(cs@, id@) is None,
        },
{
    let mut i: usize = 0;
    while i < cs.len()
        invariant
            i <= cs@.len(),
            forall|j: int| 0 <= j < i ==> (#[trigger] cs@[j]).id@ != id@,
        decreases cs@.len() - i,
    {
        if crate::text::str_eq(cs[i].id.as_str(), id) {
            proof {
                let m = index_of_id(cs@, id@)->0;
                if m < i {
                    assert(cs@[m].id@ != id@);
                } else if m > i {
                    assert(cs@[i as int].id@ != id@);
                }
            }
            return Some(i);
        }
        i = i + 1;
    }
    None
}

/// "reply" or "comment".
pub open spec fn kind_word(is_reply: bool) -> Seq<char> {
    if is_reply {
        "reply"@
    } else {
        "comment"@
    }
}

/// The effect of the answer to a comment being posted: the new comment goes
/// first and writing ends (a top-level comment also counts as one more
/// top-level comment); a failure leaves the panel and reports the error.
pub open spec fn created_post(
    a: CommentPanel,
    b: CommentPanel,
    result: Result<Comment, String>,
    is_reply: bool,
    sb: Seq<char>,
    eb: Option<Seq<char>>,
    ea: Option<Seq<char>>,
) -> bool {
    match result {
        Ok(c) => {
            &&& b == CommentPanel {
                comments: b.comments,
                new_text: b.new_text,
                editing_index: None,
                top_level_count: if is_reply {
                    a.top_level_count
                } else {
                    (a.top_level_count + 1) as usize
                },
                ..a
            }
            &&& b.comments@ == seq![c] + a.comments@
            &&& b.new_text@.len() == 0
            &&& sb == if is_reply {
                "Reply added"@
            } else {
                "Comment added"@
            }
            &&& eb == ea
        },
        Err(e) => {
            &&& b == a
            &&& sb == "Failed to create "@ + kind_word(is_reply)
            &&& eb == Some("Failed to create "@ + kind_word(is_reply) + ": "@ + e@)
        },
    }
}

/// The effect of the answer to a comment being changed: the first comment
/// with its id is replaced and writing ends; a failure leaves the panel and
/// reports the error.
pub open spec fn updated_post(
    a: CommentPanel,
    b: CommentPanel,
    result: Result<Comment, String>,
    sb: Seq<char>,
    eb: Option<Seq<char>>,
    ea: Option<Seq<char>>,
) -> bool {
    match result {
        Ok(c) => {
            &&& b == CommentPanel {
                comments: b.comments,
                new_text: b.new_text,
                editing_index: None,
                ..a
            }
            &&& b.comments@ == match index_of_id(a.comments@, c.id@) {
                Some(i) => a.comments@.update(i, c),
                None => a.comments@,
            }
            &&& b.new_text@.len() == 0
            &&& sb == "Comment updated"@
            &&& eb == ea
        },
        Err(e) => {
            &&& b == a
            &&& sb == "Failed to update comment"@
            &&& eb == Some("Failed to update comment: "@ + e@)
        },
    }
}

/// The view of an optional string.
pub open spec fn opt_str(o: Option<String>) -> Option<Seq<char>> {
    match o {
        Some(s) => Some(s@),
        None => None,
    }
}

/// "`prefix``s`".
fn joined(prefix: &str, s: &str) -> (r: String)
    ensures
        r@ == prefix@ + s@,
{
    let mut r = owned(prefix);
    push_str(&mut r, s);
    r
}

/// Whether j would step past the end of the counters: at the top level
/// with no top-level comment counted, or in a thread at the largest index.
pub open spec fn detail_key_overflows(a: CommentPanel, key: KeyEvent) -> bool {
    &&& key.code == KeyCode::Char('j')
    &&& a.focus
    &&& a.comments@.len() > 0
    &&& if in_thread(a) {
        a.selected_index == usize::MAX
    } else {
        a.top_level_count == 0
    }
}

/// An empty string.
fn empty_string() -> (s: String)
    ensures
        s@.len() == 0,
{
    let s = owned("");
    proof {
        reveal_strlit("");
    }
    s
}

impl CommentPanel {
    /// No comments, the top level shown, the task form focused.
    pub fn new() -> (p: Self)
        ensures
            p.comments@.len() == 0,
            p.top_level_count == 0,
            p.selected_index == 0,
            p.previous_selection is None,
            p.view_mode == CommentViewMode::TopLevel,
            !p.focus,
            p.editing_index is None,
            p.new_text@.len() == 0,
    {
        CommentPanel {
            comments: Vec::new(),
            top_level_count: 0,
            selected_index: 0,
            previous_selection: None,
            view_mode: CommentViewMode::TopLevel,
            focus: false,
            editing_index: None,
            new_text: empty_string(),
        }
    }

    /// Whether a comment or a reply is being written or edited.
    pub fn is_editing(&self) -> (b: bool)
        ensures
            b == is_editing(*self),
    {
        self.editing_index.is_some() || !self.new_text.as_str().is_empty()
    }

    /// Handles a key while a comment or a reply is being written; `task_id`
    /// is the open task's id. Returns what has to be sent.
    pub fn handle_comment_input(
        &mut self,
        key: KeyEvent,
        task_id: Option<&String>,
        status: &mut String,
    ) -> (act: CommentAction)
        requires
            !(key.code == KeyCode::Char('s') && has_control(key) && save_out_of_range(
                *old(self),
                match task_id {
                    Some(t) => Some(*t),
                    None => None,
                },
            )),
        ensures
            input_post(
                *old(self),
                *final(self),
                key,
                match task_id {
                    Some(t) => Some(*t),
                    None => None,
                },
                old(status)@,
                final(status)@,
                act,
            ),
    {
        if key.code == KeyCode::Char('s') && key.control() {
            return self.save(task_id, status);
        }
        match key.code {
            KeyCode::Esc => {
                self.new_text = empty_string();
                self.editing_index = None;
                *status = match self.view_mode {
                    CommentViewMode::InThread { .. } => owned("Reply cancelled"),
                    CommentViewMode::TopLevel => owned("Comment editing cancelled"),
                };
            },
            KeyCode::Char(c) => {
                push_char(&mut self.new_text, c);
            },
            KeyCode::Backspace => {
                pop_char(&mut self.new_text);
            },
            _ => {},
        }
        CommentAction::NoOp
    }

    /// Handles a key on the task detail screen when nothing is being written
    /// (see `detail_post`); `task_present` tells whether a task is open.
    pub fn handle_detail_key(&mut self, key: KeyEvent, task_present: bool, status: &mut String) -> (act:
        DetailAction)
        requires
            !detail_key_overflows(*old(self), key),
        ensures
            detail_post(*old(self), *final(self), key, task_present, old(status)@, final(status)@, act),
    {
        let n = self.comments.len();
        let thread = match self.view_mode {
            CommentViewMode::InThread { .. } => true,
            CommentViewMode::TopLevel => false,
        };
        let k = key.code;
        if k == KeyCode::Esc {
            if thread {
                self.view_mode = CommentViewMode::TopLevel;
                self.selected_index = match self.previous_selection {
                    Some(s) => s,
                    None => 0,
                };
                self.previous_selection = None;
                *status = owned("Back to top-level comments");
                DetailAction::NoOp
            } else if self.is_editing() {
                self.new_text = empty_string();
                self.editing_index = None;
                *status = owned("Comment editing cancelled");
                DetailAction::NoOp
            } else {
                DetailAction::ExitToTasks
            }
        } else if k == KeyCode::Char('e') && !self.focus {
            DetailAction::StartEditingTask
        } else if k == KeyCode::Char('d') {
            DetailAction::ShowDeleteDialog
        } else if k == KeyCode::Char('s') && key.control() {
            *status = owned("Save task - coming soon");
            DetailAction::StopEditingTask
        } else if k == KeyCode::Char('s') {
            if task_present {
                DetailAction::OpenStatusPicker
            } else {
                *status = owned("No task selected");
                DetailAction::NoOp
            }
        } else if k == KeyCode::Char('A') && !self.focus {
            DetailAction::OpenAssigneePicker
        } else if k == KeyCode::Tab {
            self.focus = !self.focus;
            *status = if self.focus {
                owned("Focus: Comments (j/k navigate, n new, e edit)")
            } else {
                owned("Focus: Task form")
            };
            DetailAction::NoOp
        } else if k == KeyCode::Char('j') && self.focus {
            if n > 0 {
                if !thread {
                    if self.selected_index < self.top_level_count - 1 {
                        self.selected_index = self.selected_index + 1;
                    } else {
                        self.selected_index = 0;
                    }
                } else {
                    self.selected_index = self.selected_index + 1;
                }
            }
            DetailAction::NoOp
        } else if k == KeyCode::Char('k') && self.focus {
            if self.selected_index > 0 {
                self.selected_index = self.selected_index - 1;
            } else if !thread && self.top_level_count > 0 {
                self.selected_index = self.top_level_count - 1;
            }
            DetailAction::NoOp
        } else if k == KeyCode::Char('n') && self.focus {
            self.new_text = empty_string();
            self.editing_index = Some(usize::MAX);
            *status = owned("Type comment (Ctrl+S save, Esc cancel)");
            DetailAction::NoOp
        } else if k == KeyCode::Char('e') {
            if self.selected_index < n {
                self.new_text = self.comments[self.selected_index].text.clone();
                self.editing_index = Some(self.selected_index);
                *status = owned("Editing comment (Ctrl+S save, Esc cancel)");
            }
            DetailAction::NoOp
        } else if k == KeyCode::Enter && self.focus {
            if !thread && self.selected_index < n
                && self.comments[self.selected_index].parent_id.is_none() {
                let c = &self.comments[self.selected_index];
                let author = match &c.commenter {
                    Some(u) => u.username.clone(),
                    None => owned("Unknown"),
                };
                let id = c.id.clone();
                self.previous_selection = Some(self.selected_index);
                self.view_mode = CommentViewMode::InThread {
                    parent_comment_id: id,
                    parent_author: author,
                };
                *status = owned("Viewing thread. Press Esc to go back");
            }
            DetailAction::NoOp
        } else if k == KeyCode::Char('r') && self.focus {
            match &self.view_mode {
                CommentViewMode::InThread { parent_author, .. } => {
                    let mut msg = owned("Replying to ");
                    push_str(&mut msg, parent_author.as_str());
                    push_str(&mut msg, " (Ctrl+S save, Esc cancel)");
                    self.new_text = empty_string();
                    self.editing_index = Some(usize::MAX);
                    *status = msg;
                },
                CommentViewMode::TopLevel => {
                    *status = owned("Press Enter to view thread, then 'r' to reply");
                },
            }
            DetailAction::NoOp
        } else {
            DetailAction::NoOp
        }
    }

    /// Takes the comments of the task as loaded: the selection goes to the
    /// first one. On failure the list is emptied and the error reported.
    pub fn comments_loaded(
        &mut self,
        result: Result<CommentsLoadedResponse, String>,
        status: &mut String,
        error: &mut Option<String>,
    )
        ensures
            match result {
                Ok(r) => {
                    &&& *final(self) == CommentPanel {
                        comments: r.all_comments,
                        top_level_count: r.top_level_comments,
                        selected_index: 0,
                        ..*old(self)
                    }
                    &&& final(status)@ == "Loaded "@ + int_decimal(r.all_comments@.len() as int)
                        + " comment(s)"@
                    &&& *final(error) is None
                },
                Err(e) => {
                    &&& *final(self) == CommentPanel { comments: final(self).comments, ..*old(self) }
                    &&& final(self).comments@.len() == 0
                    &&& final(status)@ == "Failed to load comments"@
                    &&& opt_str(*final(error)) == Some("Failed to load comments: "@ + e@)
                },
            },
    {
        match result {
            Ok(r) => {
                self.top_level_count = r.top_level_comments;
                self.comments = r.all_comments;
                self.selected_index = 0;
                *error = None;
                let count = u64_to_string(self.comments.len() as u64);
                let mut msg = owned("Loaded ");
                push_str(&mut msg, count.as_str());
                push_str(&mut msg, " comment(s)");
                *status = msg;
            },
            Err(e) => {
                *error = Some(joined("Failed to load comments: ", e.as_str()));
                *status = owned("Failed to load comments");
                self.comments = Vec::new();
            },
        }
    }

    /// Takes the comments loaded to reach a comment from a link: the comment
    /// with the id is selected and the first 40 bytes of its text shown (the
    /// whole text when shorter); without it the status says so.
    pub fn comments_loaded_for_navigation(
        &mut self,
        result: Result<Vec<Comment>, String>,
        comment_id: &str,
        status: &mut String,
    )
        requires
            result matches Ok(cs) ==> (index_of_id(cs@, comment_id@) matches Some(k)
                ==> is_byte_boundary(cs@[k].text@, preview_len(cs@[k].text@))),
        ensures
            match result {
                Ok(cs) => {
                    &&& final(self).comments == cs
                    &&& final(self).view_mode == CommentViewMode::TopLevel
                    &&& final(self).top_level_count == old(self).top_level_count
                    &&& final(self).focus == old(self).focus
                    &&& final(self).editing_index == old(self).editing_index
                    &&& final(self).new_text == old(self).new_text
                    &&& final(self).previous_selection == old(self).previous_selection
                    &&& match index_of_id(cs@, comment_id@) {
                        Some(k) => {
                            &&& final(self).selected_index == k
                            &&& final(status)@ == "Navigated to comment: "@ + cs@[k].text@.take(
                                boundary_chars(cs@[k].text@, preview_len(cs@[k].text@)),
                            )
                        },
                        None => {
                            &&& final(self).selected_index == old(self).selected_index
                            &&& final(status)@ == "Comment not found in task"@
                        },
                    }
                },
                Err(e) => {
                    &&& *final(self) == *old(self)
                    &&& final(status)@ == "Failed to load comments: "@ + e@
                },
            },
    {
        match result {
            Ok(cs) => {
                let found = find_comment(&cs, comment_id);
                self.comments = cs;
                self.view_mode = CommentViewMode::TopLevel;
                match found {
                    Some(k) => {
                        self.selected_index = k;
                        let text = self.comments[k].text.as_str();
                        let n = str_byte_len(text);
                        let keep = if n < 40 {
                            n
                        } else {
                            40
                        };
                        let preview = take_bytes(text, keep);
                        *status = joined("Navigated to comment: ", preview.as_str());
                    },
                    None => {
                        *status = owned("Comment not found in task");
                    },
                }
            },
            Err(e) => {
                *status = joined("Failed to load comments: ", e.as_str());
            },
        }
    }

    /// Takes the answer to a comment (or a reply) being posted.
    pub fn comment_created(
        &mut self,
        result: Result<Comment, String>,
        is_reply: bool,
        status: &mut String,
        error: &mut Option<String>,
    )
        requires
            !is_reply && result is Ok ==> old(self).top_level_count < usize::MAX,
        ensures
            created_post(
                *old(self),
                *final(self),
                result,
                is_reply,
                final(status)@,
                opt_str(*final(error)),
                opt_str(*old(error)),
            ),
    {
        match result {
            Ok(c) => {
                self.comments.insert(0, c);
                self.new_text = empty_string();
                self.editing_index = None;
                *status = if is_reply {
                    owned("Reply added")
                } else {
                    owned("Comment added")
                };
                if !is_reply {
                    self.top_level_count = self.top_level_count + 1;
                }
                assert(self.comments@ =~= seq![c] + old(self).comments@);
            },
            Err(e) => {
                let word = if is_reply {
                    "reply"
                } else {
                    "comment"
                };
                let mut msg = joined("Failed to create ", word);
                *status = msg.clone();
                push_str(&mut msg, ": ");
                push_str(&mut msg, e.as_str());
                *error = Some(msg);
            },
        }
    }

    /// Takes the answer to a comment being changed.
    pub fn comment_updated(
        &mut self,
        result: Result<Comment, String>,
        status: &mut String,
        error: &mut Option<String>,
    )
        ensures
            updated_post(
                *old(self),
                *final(self),
                result,
                final(status)@,
                opt_str(*final(error)),
                opt_str(*old(error)),
            ),
    {
        match result {
            Ok(c) => {
                let ghost cs = self.comments@;
                let mut i: usize = 0;
                let mut found: Option<usize> = None;
                while i < self.comments.len() && found.is_none()
                    invariant
                        i <= self.comments@.len(),
                        self.comments@ == cs,
                        found is None ==> forall|j: int| 0 <= j < i ==> (#[trigger] cs[j]).id@ != c.id@,
                        found matches Some(k) ==> k < cs.len() && cs[k as int].id@ == c.id@ && forall|j: int|
                            0 <= j < k ==> (#[trigger] cs[j]).id@ != c.id@,
                    decreases self.comments@.len() - i + if found is None { 1int } else { 0int },
                {
                    if crate::text::str_eq(self.comments[i].id.as_str(), c.id.as_str()) {
                        found = Some(i);
                    } else {
                        i = i + 1;
                    }
                }
                proof {
                    match found {
                        Some(k) => {
                            assert(0 <= k < cs.len() && cs[k as int].id@ == c.id@);
                            let m = index_of_id(cs, c.id@)->0;
                            if m < k {
                                assert(cs[m].id@ != c.id@);
                            } else if m > k {
                                assert(cs[k as int].id@ != c.id@);
                            }
                        },
                        None => {},
                    }
                }
                match found {
                    Some(k) => {
                        self.comments.set(k, c);
                    },
                    None => {},
                }
                self.new_text = empty_string();
                self.editing_index = None;
                *status = owned("Comment updated");
            },
            Err(e) => {
                *error = Some(joined("Failed to update comment: ", e.as_str()));
                *status = owned("Failed to update comment");
            },
        }
    }

    /// Saving while writing (see `save_outcome`).
    fn save(&self, task_id: Option<&String>, status: &mut String) -> (act: CommentAction)
        requires
            !save_out_of_range(
                *self,
                match task_id {
                    Some(t) => Some(*t),
                    None => None,
                },
            ),
        ensures
            ({
                let (x, msg) = save_outcome(
                    *self,
                    match task_id {
                        Some(t) => Some(*t),
                        None => None,
                    },
                );
                &&& act == x
                &&& final(status)@ == match msg {
                    Some(m) => m,
                    None => old(status)@,
                }
            }),
    {
        let creating = match self.editing_index {
            Some(i) => i == usize::MAX,
            None => !self.new_text.as_str().is_empty(),
        };
        let t = match task_id {
            None => {
                return CommentAction::NoOp;
            },
            Some(t) => t,
        };
        let is_blank = str_trim(self.new_text.as_str()).is_empty();
        if creating {
            if is_blank {
                *status = match self.view_mode {
                    CommentViewMode::InThread { .. } => owned("Reply cannot be empty"),
                    CommentViewMode::TopLevel => owned("Comment cannot be empty"),
                };
                return CommentAction::NoOp;
            }
            let parent_id = match &self.view_mode {
                CommentViewMode::InThread { parent_comment_id, .. } => Some(
                    parent_comment_id.clone(),
                ),
                CommentViewMode::TopLevel => None,
            };
            CommentAction::CreateComment {
                task_id: t.clone(),
                text: self.new_text.clone(),
                parent_id,
            }
        } else {
            match self.editing_index {
                Some(i) => {
                    if is_blank {
                        *status = owned("Comment cannot be empty");
                        return CommentAction::NoOp;
                    }
                    CommentAction::UpdateComment {
                        comment_id: self.comments[i].id.clone(),
                        text: self.new_text.clone(),
                    }
                },
                None => CommentAction::NoOp,
            }
        }
    }
}

/// Opening the thread of the selected top-level comment (Enter) and leaving
/// it (Esc) gives back the panel as it was, the selection included; only
/// the remembered selection is cleared.
pub proof fn lemma_thread_round_trip(
    a: CommentPanel,
    b: CommentPanel,
    c: CommentPanel,
    enter: KeyEvent,
    esc: KeyEvent,
    task_present: bool,
    sa: Seq<char>,
    sb: Seq<char>,
    sc: Seq<char>,
    act1: DetailAction,
    act2: DetailAction,
)
    requires
        enter.code == KeyCode::Enter,
        esc.code == KeyCode::Esc,
        a.focus,
        !in_thread(a),
        a.selected_index < a.comments@.len(),
        a.comments@[a.selected_index as int].parent_id is None,
        detail_post(a, b, enter, task_present, sa, sb, act1),
        detail_post(b, c, esc, task_present, sb, sc, act2),
    ensures
        c == (CommentPanel { previous_selection: None, ..a }),
        act1 == DetailAction::NoOp,
        act2 == DetailAction::NoOp,
{
}

/// Typing a character and erasing it with Backspace gives back the text
/// being written, and nothing else changes.
pub proof fn lemma_type_then_erase(
    a: CommentPanel,
    b: CommentPanel,
    c: CommentPanel,
    typed: KeyEvent,
    backspace: KeyEvent,
    task_id: Option<String>,
    sa: Seq<char>,
    sb: Seq<char>,
    sc: Seq<char>,
    act1: CommentAction,
    act2: CommentAction,
)
    requires
        typed.code is Char,
        !(typed.code == KeyCode::Char('s') && has_control(typed)),
        backspace.code == KeyCode::Backspace,
        input_post(a, b, typed, task_id, sa, sb, act1),
        input_post(b, c, backspace, task_id, sb, sc, act2),
    ensures
        c.new_text@ == a.new_text@,
        c == (CommentPanel { new_text: c.new_text, ..a }),
        sc == sa,
{
    assert(b.new_text@.drop_last() =~= a.new_text@);
}

/// A posted comment comes first in the list, which grows by one; writing
/// ends, and the top-level count grows exactly when it is not a reply.
pub proof fn lemma_created_comment_first(
    a: CommentPanel,
    b: CommentPanel,
    c: Comment,
    is_reply: bool,
    sb: Seq<char>,
    eb: Option<Seq<char>>,
    ea: Option<Seq<char>>,
)
    requires
        created_post(a, b, Ok(c), is_reply, sb, eb, ea),
        a.top_level_count < usize::MAX,
    ensures
        b.comments@.len() == a.comments@.len() + 1,
        b.comments@[0] == c,
        forall|i: int| 0 <= i < a.comments@.len() ==> b.comments@[i + 1] == a.comments@[i],
        !is_editing(b),
        b.top_level_count == a.top_level_count + if is_reply {
            0int
        } else {
            1int
        },
{
}

/// Esc while writing discards the text and ends writing; the comments stay.
pub proof fn lemma_cancel_discards(
    a: CommentPanel,
    b: CommentPanel,
    esc: KeyEvent,
    task_id: Option<String>,
    sa: Seq<char>,
    sb: Seq<char>,
    act: CommentAction,
)
    requires
        esc.code == KeyCode::Esc,
        input_post(a, b, esc, task_id, sa, sb, act),
    ensures
        !is_editing(b),
        b.comments == a.comments,
        act == CommentAction::NoOp,
{
}


/// A reply as the panel keeps it: marked with the id of its parent.
pub open spec fn reply_of(parent: Comment, r: Comment) -> Comment {
    Comment { parent_id: Some(parent.id), ..r }
}

/// The replies fetched for the first `n` top-level comments, in order, each
/// marked with its parent; a comment whose replies could not be fetched
/// (`None`) contributes none.
pub open spec fn replies_flat(
    top: Seq<Comment>,
    replies: Seq<Option<Vec<Comment>>>,
    n: int,
) -> Seq<Comment>
    decreases n,
{
    if n <= 0 {
        Seq::empty()
    } else {
        replies_flat(top, replies, n - 1) + match replies[n - 1] {
            Some(rs) => rs@.map_values(|r: Comment| reply_of(top[n - 1], r)),
            None => Seq::empty(),
        }
    }
}

/// The comments of a task as the panel loads them: the top-level comments,
/// then the replies of each (see `replies_flat`); `replies[i]` holds what was
/// fetched for `top[i]`.
pub fn comments_with_replies(top: Vec<Comment>, replies: Vec<Option<Vec<Comment>>>) -> (r:
    CommentsLoadedResponse)
    requires
        replies@.len() == top@.len(),
    ensures
        r.top_level_comments == top@.len(),
        r.all_comments@ == top@ + replies_flat(top@, replies@, top@.len() as int),
{
    let ghost t0 = top@;
    let ghost r0 = replies@;
    let n = top.len();
    let mut ids: Vec<String> = Vec::new();
    let mut i: usize = 0;
    while i < n
        invariant
            n == top@.len(),
            i <= n,
            ids@.len() == i,
            forall|j: int| 0 <= j < i ==> ids@[j] == top@[j].id,
        decreases n - i,
    {
        ids.push(top[i].id.clone());
        i = i + 1;
    }
    let mut all = top;
    let mut rest = replies;
    let mut k: usize = 0;
    while k < n
        invariant
            n == t0.len(),
            r0.len() == n,
            k <= n,
            ids@.len() == n,
            forall|j: int| 0 <= j < n ==> ids@[j] == t0[j].id,
            rest@ == r0.skip(k as int),
            all@ == t0 + replies_flat(t0, r0, k as int),
        decreases n - k,
    {
        let entry = rest.remove(0);
        proof {
            assert(entry == r0[k as int]);
        }
        match entry {
            Some(rs) => {
                let ghost before = all@;
                let ghost rsv = rs@;
                let total = rs.len();
                let mut left = rs;
                let mut m: usize = 0;
                while left.len() > 0
                    invariant
                        m <= rsv.len(),
                        rsv.len() == total,
                        left@ == rsv.skip(m as int),
                        k < n,
                        ids@.len() == n,
                        ids@[k as int] == t0[k as int].id,
                        all@ == before + rsv.take(m as int).map_values(
                            |r: Comment| reply_of(t0[k as int], r),
                        ),
                    decreases left@.len(),
                {
                    let c = left.remove(0);
                    let marked = Comment { parent_id: Some(ids[k].clone()), ..c };
                    proof {
                        assert(c == rsv[m as int]);
                        assert(rsv.take(m + 1) =~= rsv.take(m as int).push(rsv[m as int]));
                        assert(rsv.take(m + 1).map_values(|r: Comment| reply_of(t0[k as int], r))
                            =~= rsv.take(m as int).map_values(|r: Comment| reply_of(t0[k as int], r)).push(
                            reply_of(t0[k as int], rsv[m as int]),
                        ));
                        assert(rsv.skip(m + 1) =~= rsv.skip(m as int).drop_first());
                    }
                    all.push(marked);
                    m = m + 1;
                }
                proof {
                    assert(rsv.take(m as int) =~= rsv);
                    assert(all@ =~= t0 + replies_flat(t0, r0, k + 1));
                }
            },
            None => {
                proof {
                    assert(all@ =~= t0 + replies_flat(t0, r0, k + 1));
                }
            },
        }
        proof {
            assert(rest@ =~= r0.skip(k + 1));
        }
        k = k + 1;
    }
    CommentsLoadedResponse { all_comments: all, top_level_comments: n }
}

} // verus!
