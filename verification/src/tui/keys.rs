//! Where a key press goes: the help overlay, the `g u` chord, the modal
//! dialogs and inputs, or the current screen; and what the keys of the task
//! list and of the sign-in screen ask for.
use vstd::prelude::*;

use crate::tui::comment_panel::{is_editing, CommentPanel};
use crate::tui::input::{has_control, KeyCode, KeyEvent};
use crate::tui::widgets::dialog::{DialogState, DialogType};

verus! {

/// What is open when a key arrives.
#[derive(Debug, Clone, Copy, PartialEq, Eq, Structural)]
pub struct RouteFlags {
    pub help_visible: bool,
    /// A `g` was pressed and waits for its second key.
    pub chord_pending: bool,
    pub url_input_open: bool,
    pub status_picker_open: bool,
    pub dialog_visible: bool,
    /// A text field (comment, task form, picker, URL) takes the keys.
    pub text_input_active: bool,
}

/// Where a key goes.
#[derive(Debug, Clone, Copy, PartialEq, Eq, Structural)]
pub enum KeyRoute {
    /// Next help page.
    HelpNext,
    /// Previous help page.
    HelpPrevious,
    /// Close the help.
    HelpClose,
    /// Show or hide the help.
    HelpToggle,
    /// A key the help overlay swallows.
    Ignored,
    /// `g` then `u`: open the URL input.
    OpenUrlInput,
    /// `g`: wait for the second key of a chord.
    StartChord,
    /// To the URL input.
    UrlInput,
    /// To the status picker.
    StatusPicker,
    /// Enter in a dialog.
    DialogEnter,
    /// Esc in a dialog.
    DialogClose,
    /// To the active text field.
    TextInput,
    /// `u`: copy the URL of what is shown.
    CopyUrl,
    /// To the current screen.
    Screen,
}

/// Where a key goes, and whether a chord waits afterwards. The help overlay
/// takes every key while it is shown; `?` shows or hides it; a pending `g`
/// followed by `u` opens the URL input (any other key cancels the chord and
/// goes on); `g` starts a chord unless a text field is active; then the URL
/// input, the status picker, a dialog (Enter and Esc only), an active text
/// field, `u` (copy the URL) and finally the screen get the key.
pub open spec fn route_spec(f: RouteFlags, key: KeyEvent) -> (KeyRoute, bool) {
    let k = key.code;
    if f.help_visible {
        if k == KeyCode::Char('j') || k == KeyCode::Down || k == KeyCode::Right {
            (KeyRoute::HelpNext, f.chord_pending)
        } else if k == KeyCode::Char('k') || k == KeyCode::Up || k == KeyCode::Left {
            (KeyRoute::HelpPrevious, f.chord_pending)
        } else if k == KeyCode::Esc {
            (KeyRoute::HelpClose, f.chord_pending)
        } else if k == KeyCode::Char('?') {
            (KeyRoute::HelpToggle, f.chord_pending)
        } else {
            (KeyRoute::Ignored, f.chord_pending)
        }
    } else if k == KeyCode::Char('?') {
        (KeyRoute::HelpToggle, f.chord_pending)
    } else if f.chord_pending && k == KeyCode::Char('u') {
        (KeyRoute::OpenUrlInput, false)
    } else if !f.chord_pending && k == KeyCode::Char('g') && !f.text_input_active {
        (KeyRoute::StartChord, true)
    } else if f.url_input_open {
        (KeyRoute::UrlInput, false)
    } else if f.status_picker_open {
        (KeyRoute::StatusPicker, false)
    } else if f.dialog_visible && k == KeyCode::Enter {
        (KeyRoute::DialogEnter, false)
    } else if f.dialog_visible && k == KeyCode::Esc {
        (KeyRoute::DialogClose, false)
    } else if f.text_input_active {
        (KeyRoute::TextInput, false)
    } else if k == KeyCode::Char('u') {
        (KeyRoute::CopyUrl, false)
    } else {
        (KeyRoute::Screen, false)
    }
}

/// Where a key goes (see `route_spec`).
pub fn route_key(f: RouteFlags, key: KeyEvent) -> (r: (KeyRoute, bool))
    ensures
        r == route_spec(f, key),
{
    let k = key.code;
    if f.help_visible {
        if k == KeyCode::Char('j') || k == KeyCode::Down || k == KeyCode::Right {
            (KeyRoute::HelpNext, f.chord_pending)
        } else if k == KeyCode::Char('k') || k == KeyCode::Up || k == KeyCode::Left {
            (KeyRoute::HelpPrevious, f.chord_pending)
        } else if k == KeyCode::Esc {
            (KeyRoute::HelpClose, f.chord_pending)
        } else if k == KeyCode::Char('?') {
            (KeyRoute::HelpToggle, f.chord_pending)
        } else {
            (KeyRoute::Ignored, f.chord_pending)
        }
    } else if k == KeyCode::Char('?') {
        (KeyRoute::HelpToggle, f.chord_pending)
    } else if f.chord_pending && k == KeyCode::Char('u') {
        (KeyRoute::OpenUrlInput, false)
    } else if !f.chord_pending && k == KeyCode::Char('g') && !f.text_input_active {
        (KeyRoute::StartChord, true)
    } else if f.url_input_open {
        (KeyRoute::UrlInput, false)
    } else if f.status_picker_open {
        (KeyRoute::StatusPicker, false)
    } else if f.dialog_visible && k == KeyCode::Enter {
        (KeyRoute::DialogEnter, false)
    } else if f.dialog_visible && k == KeyCode::Esc {
        (KeyRoute::DialogClose, false)
    } else if f.text_input_active {
        (KeyRoute::TextInput, false)
    } else if k == KeyCode::Char('u') {
        (KeyRoute::CopyUrl, false)
    } else {
        (KeyRoute::Screen, false)
    }
}

/// What Enter in a dialog leads to.
#[derive(Debug, Clone, Copy, PartialEq, Eq, Structural)]
pub enum DialogOutcome {
    /// Save the session and quit.
    Quit,
    /// Delete the selected task, then close the dialog.
    Delete,
    /// Just close the dialog.
    Close,
}

/// Enter in a dialog: "Yes" on the quit question quits, "Yes" on the delete
/// question deletes; anything else closes the dialog.
pub open spec fn dialog_outcome_spec(d: DialogState) -> DialogOutcome {
    if d.selected {
        match d.dialog_type {
            Some(DialogType::ConfirmQuit) => DialogOutcome::Quit,
            Some(DialogType::ConfirmDelete) => DialogOutcome::Delete,
            _ => DialogOutcome::Close,
        }
    } else {
        DialogOutcome::Close
    }
}

/// What Enter in a dialog leads to (see `dialog_outcome_spec`).
pub fn dialog_enter_outcome(d: &DialogState) -> (o: DialogOutcome)
    ensures
        o == dialog_outcome_spec(*d),
{
    if d.confirmed() {
        match &d.dialog_type {
            Some(DialogType::ConfirmQuit) => DialogOutcome::Quit,
            Some(DialogType::ConfirmDelete) => DialogOutcome::Delete,
            _ => DialogOutcome::Close,
        }
    } else {
        DialogOutcome::Close
    }
}

/// What a key on the task list asks for.
#[derive(Debug, Clone, Copy, PartialEq, Eq, Structural)]
pub enum TasksAction {
    NoOp,
    SelectNext,
    SelectPrevious,
    /// Open the selected task.
    OpenSelected,
    /// Open the task-creation form.
    NewTask,
    /// Edit the open task.
    EditTask,
    /// Ask whether to delete the selected task.
    ConfirmDelete,
    /// Switch the "assigned to me" filter.
    ToggleAssignedFilter,
    /// Change the status of the selected task.
    OpenStatusPicker,
    /// Go back to the lists.
    Back,
    /// Show or hide the sidebar.
    ToggleSidebar,
}

/// What a key on the task list asks for: j/k (or the arrows) move, Enter
/// opens the selected task, n creates one, e edits the open one, d deletes
/// and s changes the status of the selected one, a switches the filter, Esc
/// goes back and Tab shows or hides the sidebar. Keys that need a task do
/// nothing without one.
pub open spec fn tasks_action_spec(key: KeyEvent, task_selected: bool, task_open: bool) -> TasksAction {
    let k = key.code;
    if k == KeyCode::Char('j') || k == KeyCode::Down {
        TasksAction::SelectNext
    } else if k == KeyCode::Char('k') || k == KeyCode::Up {
        TasksAction::SelectPrevious
    } else if k == KeyCode::Enter {
        if task_selected {
            TasksAction::OpenSelected
        } else {
            TasksAction::NoOp
        }
    } else if k == KeyCode::Char('n') {
        TasksAction::NewTask
    } else if k == KeyCode::Char('e') {
        if task_open {
            TasksAction::EditTask
        } else {
            TasksAction::NoOp
        }
    } else if k == KeyCode::Char('d') {
        if task_selected {
            TasksAction::ConfirmDelete
        } else {
            TasksAction::NoOp
        }
    } else if k == KeyCode::Char('a') {
        TasksAction::ToggleAssignedFilter
    } else if k == KeyCode::Char('s') {
        if task_selected {
            TasksAction::OpenStatusPicker
        } else {
            TasksAction::NoOp
        }
    } else if k == KeyCode::Esc {
        TasksAction::Back
    } else if k == KeyCode::Tab {
        TasksAction::ToggleSidebar
    } else {
        TasksAction::NoOp
    }
}

/// What a key on the task list asks for (see `tasks_action_spec`).
pub fn tasks_key(key: KeyEvent, task_selected: bool, task_open: bool) -> (a: TasksAction)
    ensures
        a == tasks_action_spec(key, task_selected, task_open),
{
    let k = key.code;
    if k == KeyCode::Char('j') || k == KeyCode::Down {
        TasksAction::SelectNext
    } else if k == KeyCode::Char('k') || k == KeyCode::Up {
        TasksAction::SelectPrevious
    } else if k == KeyCode::Enter {
        if task_selected {
            TasksAction::OpenSelected
        } else {
            TasksAction::NoOp
        }
    } else if k == KeyCode::Char('n') {
        TasksAction::NewTask
    } else if k == KeyCode::Char('e') {
        if task_open {
            TasksAction::EditTask
        } else {
            TasksAction::NoOp
        }
    } else if k == KeyCode::Char('d') {
        if task_selected {
            TasksAction::ConfirmDelete
        } else {
            TasksAction::NoOp
        }
    } else if k == KeyCode::Char('a') {
        TasksAction::ToggleAssignedFilter
    } else if k == KeyCode::Char('s') {
        if task_selected {
            TasksAction::OpenStatusPicker
        } else {
            TasksAction::NoOp
        }
    } else if k == KeyCode::Esc {
        TasksAction::Back
    } else if k == KeyCode::Tab {
        TasksAction::ToggleSidebar
    } else {
        TasksAction::NoOp
    }
}

/// What a key on the sign-in screen asks for.
#[derive(Debug, Clone, Copy, PartialEq, Eq, Structural)]
pub enum AuthAction {
    NoOp,
    /// Clear the form.
    Clear,
    /// Sign in with the token typed.
    Authenticate,
    /// Paste the clipboard into the form.
    Paste,
    /// Type a character.
    Type(char),
    /// Erase the character before the cursor.
    Erase,
}

/// What a key on the sign-in screen asks for: Esc clears, Enter signs in
/// unless a sign-in is already under way, Control+V pastes, other
/// characters are typed and Backspace erases.
pub open spec fn auth_action_spec(key: KeyEvent, loading: bool) -> AuthAction {
    let k = key.code;
    if k == KeyCode::Esc {
        AuthAction::Clear
    } else if k == KeyCode::Enter {
        if loading {
            AuthAction::NoOp
        } else {
            AuthAction::Authenticate
        }
    } else if k == KeyCode::Char('v') && has_control(key) {
        AuthAction::Paste
    } else if k is Char {
        AuthAction::Type(k->0)
    } else if k == KeyCode::Backspace {
        AuthAction::Erase
    } else {
        AuthAction::NoOp
    }
}

/// What a key on the sign-in screen asks for (see `auth_action_spec`).
pub fn auth_key(key: KeyEvent, loading: bool) -> (a: AuthAction)
    ensures
        a == auth_action_spec(key, loading),
{
    let k = key.code;
    if k == KeyCode::Esc {
        AuthAction::Clear
    } else if k == KeyCode::Enter {
        if loading {
            AuthAction::NoOp
        } else {
            AuthAction::Authenticate
        }
    } else if k == KeyCode::Char('v') && key.control() {
        AuthAction::Paste
    } else {
        match k {
            KeyCode::Char(c) => AuthAction::Type(c),
            KeyCode::Backspace => AuthAction::Erase,
            _ => AuthAction::NoOp,
        }
    }
}

/// Whether a text field takes the keys: the URL input, the status picker,
/// the assignee picker, the task-creation form, or a comment being written.
pub fn is_text_input_active(
    url_input_open: bool,
    status_picker_open: bool,
    assignee_picker_open: bool,
    task_creating: bool,
    comments: &CommentPanel,
) -> (b: bool)
    ensures
        b == (url_input_open || status_picker_open || assignee_picker_open || task_creating
            || is_editing(*comments)),
{
    url_input_open || status_picker_open || assignee_picker_open || task_creating
        || comments.is_editing()
}

/// While the help is shown, no key reaches anything but the help overlay;
/// and a `g` that starts a chord never reaches a screen.
pub proof fn lemma_help_is_modal(f: RouteFlags, key: KeyEvent)
    ensures
        f.help_visible ==> {
            let r = route_spec(f, key).0;
            r == KeyRoute::HelpNext || r == KeyRoute::HelpPrevious || r == KeyRoute::HelpClose
                || r == KeyRoute::HelpToggle || r == KeyRoute::Ignored
        },
        route_spec(f, key).0 == KeyRoute::StartChord ==> route_spec(f, key).1,
{
}

/// `g` then `u` opens the URL input when no text field and no overlay is
/// active, and no chord waits afterwards.
pub proof fn lemma_chord_opens_url_input(f: RouteFlags, g: KeyEvent, u: KeyEvent)
    requires
        !f.help_visible,
        !f.chord_pending,
        !f.text_input_active,
        g.code == KeyCode::Char('g'),
        u.code == KeyCode::Char('u'),
    ensures
        route_spec(f, g) == (KeyRoute::StartChord, true),
        route_spec(RouteFlags { chord_pending: route_spec(f, g).1, ..f }, u) == (
            KeyRoute::OpenUrlInput,
            false,
        ),
{
}

} // verus!
