//! Screens of the terminal interface and navigation through the workspace
//! hierarchy (workspaces, spaces, folders, lists, tasks).
//!
//! Navigation is a state machine: a key press changes the navigation state
//! and may ask the caller to load the entries of the level it entered.
use vstd::prelude::*;

use crate::models::comment::Comment;
use crate::models::session::SessionState;
use crate::models::workspace::{Folder, List, Space, Workspace};
use crate::text::{int_decimal, owned, push_str, str_eq};
use crate::tui::helpers::{wrap_next, wrap_previous};
use crate::tui::forms::TaskForm;
use crate::tui::input::{has_control, KeyCode, KeyEvent};
use crate::tui::layout::generate_screen_title;
use crate::tui::widgets::auth::AuthState;
use crate::tui::widgets::dialog::get_dialog_hints;
use crate::tui::widgets::help::{get_help_hints, HelpContext, HelpState};
use crate::models::task::Task;
use crate::tui::comment_panel::CommentPanel;
use crate::tui::task_store::selected_task_id;
use crate::tui::widgets::task_detail::TaskDetailState;
use crate::tui::widgets::task_list::GroupedTaskList;
use crate::tui::widgets::sidebar::{
    find_item, first_with_id, item_id, item_name, lemma_first_with_id_found, SidebarItem,
    SidebarState,
};

verus! {

/// The screens of the interface.
#[derive(Debug, Clone, Copy, PartialEq, Eq, Structural)]
pub enum Screen {
    Auth,
    Workspaces,
    Spaces,
    Folders,
    Lists,
    Tasks,
    TaskDetail,
    Document,
}

/// The name of a screen, as it is stored in a saved session.
pub open spec fn screen_name_spec(s: Screen) -> Seq<char> {
    match s {
        Screen::Auth => "Auth"@,
        Screen::Workspaces => "Workspaces"@,
        Screen::Spaces => "Spaces"@,
        Screen::Folders => "Folders"@,
        Screen::Lists => "Lists"@,
        Screen::Tasks => "Tasks"@,
        Screen::TaskDetail => "TaskDetail"@,
        Screen::Document => "Document"@,
    }
}

impl Screen {
    /// The name of the screen.
    pub fn name(&self) -> (s: &'static str)
        ensures
            s@ == screen_name_spec(*self),
    {
        match self {
            Screen::Auth => "Auth",
            Screen::Workspaces => "Workspaces",
            Screen::Spaces => "Spaces",
            Screen::Folders => "Folders",
            Screen::Lists => "Lists",
            Screen::Tasks => "Tasks",
            Screen::TaskDetail => "TaskDetail",
            Screen::Document => "Document",
        }
    }
}

/// How the comments of a task are shown.
#[derive(Debug, Clone, PartialEq)]
pub enum CommentViewMode {
    /// All top-level comments.
    TopLevel,
    /// One thread: its parent comment and the replies.
    InThread { parent_comment_id: String, parent_author: String },
}

/// The focused field of the task-creation form.
#[derive(Debug, Clone, Copy, PartialEq, Eq, Structural)]
pub enum TaskCreationField {
    Name,
    Description,
}

/// Comments of a task as loaded, with how many of them are top-level.
#[derive(Debug, Clone)]
pub struct CommentsLoadedResponse {
    pub all_comments: Vec<Comment>,
    pub top_level_comments: usize,
}

/// The state of the application as a whole.
#[derive(Debug, Clone, Copy, PartialEq, Eq, Structural)]
pub enum AppState {
    Initializing,
    Unauthenticated,
    Main,
    Quitting,
}

/// What the caller has to load after a navigation step.
#[derive(Debug, Clone, PartialEq)]
pub enum LoadRequest {
    /// The spaces of a workspace.
    Spaces(String),
    /// The folders of a space.
    Folders(String),
    /// The lists of a folder.
    Lists(String),
    /// The tasks of a list.
    Tasks(String),
}

/// Which tasks of a list to load.
#[derive(Debug, Clone, PartialEq)]
pub enum TaskLoad {
    /// All tasks of the list.
    All(String),
    /// The tasks of the list assigned to the user.
    AssignedToMe(String),
}

/// Where the user is in the workspace hierarchy, with the entries loaded at
/// each level and the sidebar that shows the current level.
#[derive(Debug, Clone)]
pub struct Navigator {
    pub screen: Screen,
    pub current_workspace_id: Option<String>,
    pub current_space_id: Option<String>,
    pub current_folder_id: Option<String>,
    pub current_list_id: Option<String>,
    pub workspaces: Vec<Workspace>,
    pub spaces: Vec<Space>,
    pub folders: Vec<Folder>,
    pub lists: Vec<List>,
    pub sidebar: SidebarState,
    /// Whether the task list shows only the tasks assigned to the user.
    pub assigned_filter_active: bool,
    pub screen_title: String,
    pub status: String,
}

/// The title bar text for a context.
pub open spec fn title_of(context: Seq<char>) -> Seq<char> {
    "ClickDown - "@ + context
}

/// The entry under the sidebar's selection.
pub open spec fn selected_of(s: SidebarState) -> Option<SidebarItem> {
    match s.list.selected {
        Some(i) => if i < s.list.items@.len() {
            Some(s.list.items@[i as int])
        } else {
            None
        },
        None => None,
    }
}

/// The effect of entering the selected entry: the level below opens, the ids
/// of the deeper levels are forgotten, and its entries are to be loaded.
/// Anything but an entry of the current level is ignored.
pub open spec fn into_post(a: Navigator, b: Navigator, req: Option<LoadRequest>) -> bool {
    match (a.screen, selected_of(a.sidebar)) {
        (Screen::Workspaces, Some(SidebarItem::Workspace { name, id })) => {
            &&& b == Navigator {
                screen: Screen::Spaces,
                current_workspace_id: Some(id),
                current_space_id: None,
                current_folder_id: None,
                current_list_id: None,
                screen_title: b.screen_title,
                ..a
            }
            &&& b.screen_title@ == title_of(name@)
            &&& req == Some(LoadRequest::Spaces(id))
        },
        (Screen::Spaces, Some(SidebarItem::Space { name, id })) => {
            &&& b == Navigator {
                screen: Screen::Folders,
                current_space_id: Some(id),
                current_folder_id: None,
                current_list_id: None,
                screen_title: b.screen_title,
                ..a
            }
            &&& b.screen_title@ == title_of(name@)
            &&& req == Some(LoadRequest::Folders(id))
        },
        (Screen::Folders, Some(SidebarItem::Folder { name, id })) => {
            &&& b == Navigator {
                screen: Screen::Lists,
                current_folder_id: Some(id),
                current_list_id: None,
                screen_title: b.screen_title,
                ..a
            }
            &&& b.screen_title@ == title_of(name@)
            &&& req == Some(LoadRequest::Lists(id))
        },
        (Screen::Lists, Some(SidebarItem::List { name, id })) => {
            &&& b == Navigator {
                screen: Screen::Tasks,
                current_list_id: Some(id),
                screen_title: b.screen_title,
                ..a
            }
            &&& b.screen_title@ == title_of("Tasks: "@ + name@)
            &&& req == Some(LoadRequest::Tasks(id))
        },
        _ => b == a && req is None,
    }
}

/// The help pages shown for a screen.
pub open spec fn help_context_spec(screen: Screen, comment_focus: bool) -> HelpContext {
    match screen {
        Screen::Auth => HelpContext::Auth,
        Screen::Workspaces | Screen::Spaces | Screen::Folders | Screen::Lists => {
            HelpContext::Navigation
        },
        Screen::Tasks => HelpContext::TaskList,
        Screen::TaskDetail => if comment_focus {
            HelpContext::Comments
        } else {
            HelpContext::TaskDetail
        },
        Screen::Document => HelpContext::Document,
    }
}

/// The help pages shown for a screen (the comment pages when the comments
/// of a task have the focus).
pub fn get_help_context(screen: Screen, comment_focus: bool) -> (c: HelpContext)
    ensures
        c == help_context_spec(screen, comment_focus),
{
    match screen {
        Screen::Auth => HelpContext::Auth,
        Screen::Workspaces | Screen::Spaces | Screen::Folders | Screen::Lists => {
            HelpContext::Navigation
        },
        Screen::Tasks => HelpContext::TaskList,
        Screen::TaskDetail => if comment_focus {
            HelpContext::Comments
        } else {
            HelpContext::TaskDetail
        },
        Screen::Document => HelpContext::Document,
    }
}

/// The status-bar hints of a screen.
pub open spec fn screen_hints_spec(screen: Screen, comment_focus: bool, in_thread: bool) -> Seq<
    char,
> {
    match screen {
        Screen::Auth => "Enter: Connect | Esc: Cancel | ? - Help"@,
        Screen::Tasks =>
            "j/k: Navigate | Enter: View | n: New | e: Edit | d: Delete | a: Filter | s: Status | ? - Help"@,
        Screen::TaskDetail => if comment_focus {
            if in_thread {
                "j/k: Navigate | r: Reply | Esc: Back | Tab: Task form | ? - Help"@
            } else {
                "j/k: Navigate | Enter: View thread | n: New comment | e: Edit | Tab: Task form | ? - Help"@
            }
        } else {
            "e: Edit task | Tab: Comments | Esc: Back | ? - Help"@
        },
        Screen::Document => "j/k: Scroll | Esc: Close | ? - Help"@,
        _ => "j/k: Navigate | Enter: Select | Tab: Toggle | Ctrl+Q: Quit | ? - Help"@,
    }
}

/// The status-bar hints of a screen.
pub fn screen_hints(screen: Screen, comment_focus: bool, in_thread: bool) -> (s: &'static str)
    ensures
        s@ == screen_hints_spec(screen, comment_focus, in_thread),
{
    match screen {
        Screen::Auth => "Enter: Connect | Esc: Cancel | ? - Help",
        Screen::Tasks =>
            "j/k: Navigate | Enter: View | n: New | e: Edit | d: Delete | a: Filter | s: Status | ? - Help",
        Screen::TaskDetail => if comment_focus {
            if in_thread {
                "j/k: Navigate | r: Reply | Esc: Back | Tab: Task form | ? - Help"
            } else {
                "j/k: Navigate | Enter: View thread | n: New comment | e: Edit | Tab: Task form | ? - Help"
            }
        } else {
            "e: Edit task | Tab: Comments | Esc: Back | ? - Help"
        },
        Screen::Document => "j/k: Scroll | Esc: Close | ? - Help",
        _ => "j/k: Navigate | Enter: Select | Tab: Toggle | Ctrl+Q: Quit | ? - Help",
    }
}

/// The status-bar hints: those of an open dialog, of the status picker, of
/// the help overlay, or else of the screen.
pub fn get_hints(
    dialog_visible: bool,
    status_picker_open: bool,
    help: &HelpState,
    screen: Screen,
    comment_focus: bool,
    in_thread: bool,
) -> (s: String)
    requires
        help.page < 255,
    ensures
        s@ == if dialog_visible {
            "←/→: Select | Enter: Confirm | Esc: Cancel"@
        } else if status_picker_open {
            "j/k: Navigate | Enter: Select | Esc: Cancel"@
        } else if help.visible {
            "j/k: Pages | Esc: Close | "@ + int_decimal(help.page + 1) + "/3"@
        } else {
            screen_hints_spec(screen, comment_focus, in_thread)
        },
{
    if dialog_visible {
        owned(get_dialog_hints())
    } else if status_picker_open {
        owned("j/k: Navigate | Enter: Select | Esc: Cancel")
    } else if help.visible {
        get_help_hints(help)
    } else {
        owned(screen_hints(screen, comment_focus, in_thread))
    }
}

/// The title bar context of a screen: the level's first entry for the
/// hierarchy screens, the list and filter for tasks, the task's or the
/// document's name.
pub open spec fn screen_context(
    n: Navigator,
    task_name: Option<Seq<char>>,
    document_title: Seq<char>,
) -> Seq<char> {
    match n.screen {
        Screen::Auth => "Authentication"@,
        Screen::Workspaces => "Workspaces"@,
        Screen::Spaces => if n.spaces@.len() > 0 {
            n.spaces@[0].name@
        } else {
            "Spaces"@
        },
        Screen::Folders => if n.folders@.len() > 0 {
            n.folders@[0].name@
        } else {
            "Folders"@
        },
        Screen::Lists => if n.lists@.len() > 0 {
            n.lists@[0].name@
        } else {
            "Lists"@
        },
        Screen::Tasks => tasks_context(n.lists@, n.assigned_filter_active),
        Screen::TaskDetail => match task_name {
            Some(t) => "Task: "@ + t,
            None => "Task Detail"@,
        },
        Screen::Document => if document_title.len() > 0 {
            "Doc: "@ + document_title
        } else {
            "Document"@
        },
    }
}

/// What is left of a saved session being restored: the ids to reselect at
/// each level on the way down, while `restoring` holds.
#[derive(Debug, Clone)]
pub struct SessionRestore {
    pub restoring: bool,
    pub workspace_id: Option<String>,
    pub space_id: Option<String>,
    pub folder_id: Option<String>,
    pub list_id: Option<String>,
    pub task_id: Option<String>,
}

/// The name of the entry with the id, or nothing.
pub open spec fn name_or_empty(entries: Seq<(Seq<char>, Seq<char>)>, id: Seq<char>) -> Seq<char> {
    match name_by_id(entries, id) {
        Some(n) => n,
        None => Seq::empty(),
    }
}

/// `Loaded {n} {noun}(s)`.
pub open spec fn loaded_message(n: nat, noun: Seq<char>) -> Seq<char> {
    "Loaded "@ + int_decimal(n as int) + " "@ + noun + "(s)"@
}

/// The entries of a hierarchy level arrived and fill the sidebar. While a
/// session is restored, the saved entry of the level is selected and the
/// level below it opens (`descend` names it); when the saved entry is gone,
/// restoring stops on this level with a message, and with no saved entry it
/// stops with the first entry selected. Otherwise the current entry is
/// selected again, or the first one.
pub open spec fn level_loaded(
    a: Navigator,
    b: Navigator,
    ra: SessionRestore,
    rb: SessionRestore,
    items: Seq<SidebarItem>,
    entries: Seq<(Seq<char>, Seq<char>)>,
    restore_id: Option<String>,
    current_id: Option<String>,
    here: Screen,
    next: Screen,
    here_name: Seq<char>,
    next_prefix: Seq<char>,
    missing: Seq<char>,
    noun: Seq<char>,
    descend: Option<String>,
) -> bool {
    let first = if items.len() > 0 {
        Some(0usize)
    } else {
        a.sidebar.list.selected
    };
    &&& b.sidebar.list.items@ == items
    &&& b.sidebar.visible == a.sidebar.visible
    &&& if ra.restoring {
        match restore_id {
            Some(r) => match first_with_id(items, r@) {
                Some(k) => {
                    &&& b.sidebar.list.selected == Some(k as usize)
                    &&& b.screen == next
                    &&& b.screen_title@ == title_of(next_prefix + name_or_empty(entries, r@))
                    &&& b.status@ == a.status@
                    &&& rb == ra
                    &&& descend == Some(r)
                },
                None => {
                    &&& b.sidebar.list.selected == a.sidebar.list.selected
                    &&& b.screen == here
                    &&& b.screen_title@ == title_of(here_name)
                    &&& b.status@ == missing
                    &&& rb == SessionRestore { restoring: false, ..ra }
                    &&& descend is None
                },
            },
            None => {
                &&& b.sidebar.list.selected == first
                &&& b.screen == a.screen
                &&& b.screen_title == a.screen_title
                &&& b.status@ == loaded_message(items.len(), noun)
                &&& rb == SessionRestore { restoring: false, ..ra }
                &&& descend is None
            },
        }
    } else {
        &&& b.sidebar.list.selected == restored_selection(
            items,
            current_id,
            a.sidebar.list.selected,
        )
        &&& b.screen == a.screen
        &&& b.screen_title == a.screen_title
        &&& b.status@ == loaded_message(items.len(), noun)
        &&& rb == ra
        &&& descend is None
    }
}

/// A level failed to load: the error is reported and restoring stops.
pub open spec fn level_failed(
    a: Navigator,
    b: Navigator,
    ra: SessionRestore,
    rb: SessionRestore,
    plural: Seq<char>,
    e: Seq<char>,
    error: Option<Seq<char>>,
) -> bool {
    &&& b == Navigator { status: b.status, ..a }
    &&& b.status@ == "Failed to load "@ + plural
    &&& error == Some("Failed to load "@ + plural + ": "@ + e)
    &&& rb == SessionRestore { restoring: false, ..ra }
}

/// The id that a load request names.
pub open spec fn load_target(req: Option<LoadRequest>) -> Option<String> {
    match req {
        Some(LoadRequest::Spaces(id)) => Some(id),
        Some(LoadRequest::Folders(id)) => Some(id),
        Some(LoadRequest::Lists(id)) => Some(id),
        Some(LoadRequest::Tasks(id)) => Some(id),
        None => None,
    }
}

/// The view of an optional string.
pub open spec fn opt_text(o: Option<String>) -> Option<Seq<char>> {
    match o {
        Some(s) => Some(s@),
        None => None,
    }
}

/// `Loaded {n} {noun}(s)`.
fn loaded_text(n: usize, noun: &str) -> (s: String)
    ensures
        s@ == loaded_message(n as nat, noun@),
{
    let count = crate::text::u64_to_string(n as u64);
    let mut s = owned("Loaded ");
    push_str(&mut s, count.as_str());
    push_str(&mut s, " ");
    push_str(&mut s, noun);
    push_str(&mut s, "(s)");
    s
}

/// `Failed to load {plural}` for the status and `... : {e}` for the error.
fn failure_texts(plural: &str, e: &str) -> (r: (String, String))
    ensures
        r.0@ == "Failed to load "@ + plural@,
        r.1@ == "Failed to load "@ + plural@ + ": "@ + e@,
{
    let mut st = owned("Failed to load ");
    push_str(&mut st, plural);
    let mut er = st.clone();
    push_str(&mut er, ": ");
    push_str(&mut er, e);
    (st, er)
}

/// Sidebar entries for workspaces.
pub open spec fn workspace_items(ws: Seq<Workspace>) -> Seq<SidebarItem> {
    ws.map_values(|w: Workspace| SidebarItem::Workspace { name: w.name, id: w.id })
}

/// Sidebar entries for spaces.
pub open spec fn space_items(ss: Seq<Space>) -> Seq<SidebarItem> {
    ss.map_values(|s: Space| SidebarItem::Space { name: s.name, id: s.id })
}

/// Sidebar entries for folders.
pub open spec fn folder_items(fs: Seq<Folder>) -> Seq<SidebarItem> {
    fs.map_values(|f: Folder| SidebarItem::Folder { name: f.name, id: f.id })
}

/// Sidebar entries for lists.
pub open spec fn list_items(ls: Seq<List>) -> Seq<SidebarItem> {
    ls.map_values(|l: List| SidebarItem::List { name: l.name, id: l.id })
}

/// `(id, name)` of each workspace.
pub open spec fn workspace_entries(ws: Seq<Workspace>) -> Seq<(Seq<char>, Seq<char>)> {
    ws.map_values(|w: Workspace| (w.id@, w.name@))
}

/// `(id, name)` of each space.
pub open spec fn space_entries(ss: Seq<Space>) -> Seq<(Seq<char>, Seq<char>)> {
    ss.map_values(|s: Space| (s.id@, s.name@))
}

/// `(id, name)` of each folder.
pub open spec fn folder_entries(fs: Seq<Folder>) -> Seq<(Seq<char>, Seq<char>)> {
    fs.map_values(|f: Folder| (f.id@, f.name@))
}

/// `(id, name)` of each list.
pub open spec fn list_entries(ls: Seq<List>) -> Seq<(Seq<char>, Seq<char>)> {
    ls.map_values(|l: List| (l.id@, l.name@))
}

/// The name of the first entry with the given id.
pub open spec fn name_by_id(entries: Seq<(Seq<char>, Seq<char>)>, id: Seq<char>) -> Option<
    Seq<char>,
>
    decreases entries.len(),
{
    if entries.len() == 0 {
        None
    } else if entries[0].0 == id {
        Some(entries[0].1)
    } else {
        name_by_id(entries.drop_first(), id)
    }
}

/// The title of the level above: the name of the entry with the remembered
/// id, or a fallback when there is no such id or entry.
pub open spec fn parent_title(
    entries: Seq<(Seq<char>, Seq<char>)>,
    id: Option<String>,
    fallback: Seq<char>,
) -> Seq<char> {
    match id {
        Some(i) => match name_by_id(entries, i@) {
            Some(n) => title_of(n),
            None => title_of(fallback),
        },
        None => title_of(fallback),
    }
}

/// The selection after going back: the first entry with the remembered id;
/// otherwise the first entry (or no change when there are no entries).
pub open spec fn restored_selection(
    items: Seq<SidebarItem>,
    id: Option<String>,
    old_sel: Option<usize>,
) -> Option<usize> {
    let first = if items.len() > 0 {
        Some(0usize)
    } else {
        old_sel
    };
    match id {
        Some(i) => match first_with_id(items, i@) {
            Some(k) => Some(k as usize),
            None => first,
        },
        None => first,
    }
}

/// Whether a remembered id is not among the entries any more.
pub open spec fn restore_misses(items: Seq<SidebarItem>, id: Option<String>) -> bool {
    match id {
        Some(i) => first_with_id(items, i@) is None,
        None => false,
    }
}

/// The title context of the task list: the first list's name, and the
/// filter when only the user's tasks are shown.
pub open spec fn tasks_context(lists: Seq<List>, assigned_only: bool) -> Seq<char> {
    if lists.len() > 0 {
        let base = "Tasks: "@ + lists[0].name@;
        if assigned_only {
            base + " (Assigned to Me)"@
        } else {
            base
        }
    } else if assigned_only {
        "Tasks (Assigned to Me)"@
    } else {
        "Tasks"@
    }
}

/// The title of the task list.
pub open spec fn tasks_title(lists: Seq<List>, assigned_only: bool) -> Seq<char> {
    title_of(tasks_context(lists, assigned_only))
}

/// The selection that selecting the first entry leaves.
pub open spec fn first_selected(s: SidebarState) -> Option<usize> {
    if s.list.items@.len() > 0 {
        Some(0usize)
    } else {
        s.list.selected
    }
}

/// Jumping from a link to the entry with id `target` of a level whose
/// entries are `items`: the sidebar's first entry is selected, then the
/// index of the entry with the id (when the sidebar has that many entries)
/// and the status names it (`Navigated to {noun}: {name}`); without such an
/// entry the status is `missing`.
pub open spec fn jumped(
    a: SidebarState,
    b: SidebarState,
    items: Seq<SidebarItem>,
    target: Seq<char>,
    noun: Seq<char>,
    missing: Seq<char>,
    status: Seq<char>,
) -> bool {
    &&& b.list.items@ == a.list.items@
    &&& b.visible == a.visible
    &&& match first_with_id(items, target) {
        Some(i) => {
            &&& b.list.selected == if i < a.list.items@.len() {
                Some(i as usize)
            } else {
                first_selected(a)
            }
            &&& status == "Navigated to "@ + noun + ": "@ + item_name(items[i])
        },
        None => b.list.selected == first_selected(a) && status == missing,
    }
}

/// The id of the selected sidebar entry when it is a workspace, and nothing
/// (an empty id) otherwise.
pub open spec fn selected_workspace_id(s: SidebarState) -> Option<Seq<char>> {
    match selected_of(s) {
        Some(item) => match item {
            SidebarItem::Workspace { id, .. } => Some(id@),
            _ => Some(Seq::empty()),
        },
        None => None,
    }
}

/// Going back to a hierarchy level: the sidebar shows its entries again,
/// with the remembered entry selected.
pub open spec fn back_level(
    a: Navigator,
    b: Navigator,
    items: Seq<SidebarItem>,
    restore_id: Option<String>,
    missing: Seq<char>,
    to: Screen,
    title: Seq<char>,
) -> bool {
    &&& b.sidebar.list.items@ == items
    &&& b.sidebar.visible == a.sidebar.visible
    &&& b.sidebar.list.selected == restored_selection(items, restore_id, a.sidebar.list.selected)
    &&& b.status@ == if restore_misses(items, restore_id) {
        missing
    } else {
        a.status@
    }
    &&& b.screen == to
    &&& b.screen_title@ == title
}

/// The effect of going back one level. From a hierarchy level the level
/// above is shown again and the ids below it are forgotten; the entry to
/// reselect is the remembered one of that level, except when leaving the
/// task list, where the list id is forgotten before the lists are shown.
/// A task or a document goes back to the task list; the first screens stay.
pub open spec fn back_post(a: Navigator, b: Navigator) -> bool {
    match a.screen {
        Screen::Auth | Screen::Workspaces => b == a,
        Screen::Spaces => {
            &&& b == Navigator {
                current_space_id: None,
                current_folder_id: None,
                current_list_id: None,
                screen: b.screen,
                sidebar: b.sidebar,
                screen_title: b.screen_title,
                status: b.status,
                ..a
            }
            &&& back_level(
                a,
                b,
                workspace_items(a.workspaces@),
                a.current_workspace_id,
                "Saved workspace not found, showing workspaces"@,
                Screen::Workspaces,
                title_of("Workspaces"@),
            )
        },
        Screen::Folders => {
            &&& b == Navigator {
                current_folder_id: None,
                current_list_id: None,
                screen: b.screen,
                sidebar: b.sidebar,
                screen_title: b.screen_title,
                status: b.status,
                ..a
            }
            &&& back_level(
                a,
                b,
                space_items(a.spaces@),
                a.current_space_id,
                "Saved space not found, showing spaces"@,
                Screen::Spaces,
                parent_title(workspace_entries(a.workspaces@), a.current_workspace_id, "Workspaces"@),
            )
        },
        Screen::Lists => {
            &&& b == Navigator {
                current_list_id: None,
                screen: b.screen,
                sidebar: b.sidebar,
                screen_title: b.screen_title,
                status: b.status,
                ..a
            }
            &&& back_level(
                a,
                b,
                folder_items(a.folders@),
                a.current_folder_id,
                "Saved folder not found, showing folders"@,
                Screen::Folders,
                parent_title(space_entries(a.spaces@), a.current_space_id, "Spaces"@),
            )
        },
        Screen::Tasks => {
            &&& b == Navigator {
                current_list_id: None,
                screen: b.screen,
                sidebar: b.sidebar,
                screen_title: b.screen_title,
                status: b.status,
                ..a
            }
            &&& back_level(
                a,
                b,
                list_items(a.lists@),
                None,
                "Saved list not found, showing lists"@,
                Screen::Lists,
                parent_title(folder_entries(a.folders@), a.current_folder_id, "Folders"@),
            )
        },
        Screen::TaskDetail => {
            &&& b == Navigator { screen: Screen::Tasks, screen_title: b.screen_title, ..a }
            &&& b.screen_title@ == if a.lists@.len() > 0 {
                title_of("Tasks: "@ + a.lists@[0].name@)
            } else {
                a.screen_title@
            }
        },
        Screen::Document => {
            &&& b == Navigator { screen: Screen::Tasks, screen_title: b.screen_title, ..a }
            &&& b.screen_title@ == tasks_title(a.lists@, a.assigned_filter_active)
        },
    }
}

/// Sidebar entries for the workspaces.
fn workspace_sidebar(ws: &Vec<Workspace>) -> (v: Vec<SidebarItem>)
    ensures
        v@ == workspace_items(ws@),
{
    let mut v: Vec<SidebarItem> = Vec::new();
    let mut i: usize = 0;
    while i < ws.len()
        invariant
            i <= ws@.len(),
            v@ == workspace_items(ws@.take(i as int)),
        decreases ws@.len() - i,
    {
        v.push(SidebarItem::Workspace { name: ws[i].name.clone(), id: ws[i].id.clone() });
        assert(ws@.take(i + 1) =~= ws@.take(i as int).push(ws@[i as int]));
        assert(v@ =~= workspace_items(ws@.take(i + 1)));
        i = i + 1;
    }
    assert(ws@.take(ws@.len() as int) =~= ws@);
    v
}

/// Sidebar entries for the spaces.
fn space_sidebar(ss: &Vec<Space>) -> (v: Vec<SidebarItem>)
    ensures
        v@ == space_items(ss@),
{
    let mut v: Vec<SidebarItem> = Vec::new();
    let mut i: usize = 0;
    while i < ss.len()
        invariant
            i <= ss@.len(),
            v@ == space_items(ss@.take(i as int)),
        decreases ss@.len() - i,
    {
        v.push(SidebarItem::Space { name: ss[i].name.clone(), id: ss[i].id.clone() });
        assert(ss@.take(i + 1) =~= ss@.take(i as int).push(ss@[i as int]));
        assert(v@ =~= space_items(ss@.take(i + 1)));
        i = i + 1;
    }
    assert(ss@.take(ss@.len() as int) =~= ss@);
    v
}

/// Sidebar entries for the folders.
fn folder_sidebar(fs: &Vec<Folder>) -> (v: Vec<SidebarItem>)
    ensures
        v@ == folder_items(fs@),
{
    let mut v: Vec<SidebarItem> = Vec::new();
    let mut i: usize = 0;
    while i < fs.len()
        invariant
            i <= fs@.len(),
            v@ == folder_items(fs@.take(i as int)),
        decreases fs@.len() - i,
    {
        v.push(SidebarItem::Folder { name: fs[i].name.clone(), id: fs[i].id.clone() });
        assert(fs@.take(i + 1) =~= fs@.take(i as int).push(fs@[i as int]));
        assert(v@ =~= folder_items(fs@.take(i + 1)));
        i = i + 1;
    }
    assert(fs@.take(fs@.len() as int) =~= fs@);
    v
}

/// Sidebar entries for the lists.
fn list_sidebar(ls: &Vec<List>) -> (v: Vec<SidebarItem>)
    ensures
        v@ == list_items(ls@),
{
    let mut v: Vec<SidebarItem> = Vec::new();
    let mut i: usize = 0;
    while i < ls.len()
        invariant
            i <= ls@.len(),
            v@ == list_items(ls@.take(i as int)),
        decreases ls@.len() - i,
    {
        v.push(SidebarItem::List { name: ls[i].name.clone(), id: ls[i].id.clone() });
        assert(ls@.take(i + 1) =~= ls@.take(i as int).push(ls@[i as int]));
        assert(v@ =~= list_items(ls@.take(i + 1)));
        i = i + 1;
    }
    assert(ls@.take(ls@.len() as int) =~= ls@);
    v
}

/// `name_by_id` over a suffix steps to the next suffix when the first entry
/// of the suffix does not match.
proof fn lemma_name_by_id_step(entries: Seq<(Seq<char>, Seq<char>)>, i: int, id: Seq<char>)
    requires
        0 <= i < entries.len(),
    ensures
        name_by_id(entries.skip(i), id) == if entries[i].0 == id {
            Some(entries[i].1)
        } else {
            name_by_id(entries.skip(i + 1), id)
        },
{
    assert(entries.skip(i).drop_first() =~= entries.skip(i + 1));
}

/// Selects the entry with id `target` among `items` (see `jumped`);
/// returns whether there was one.
fn jump(
    sidebar: &mut SidebarState,
    items: &Vec<SidebarItem>,
    target: &str,
    noun: &str,
    missing: &str,
    status: &mut String,
) -> (found: bool)
    ensures
        found == (first_with_id(items@, target@) is Some),
        jumped(*old(sidebar), *final(sidebar), items@, target@, noun@, missing@, final(status)@),
{
    sidebar.select_first();
    match find_item(items, target) {
        Some(i) => {
            sidebar.select(Some(i));
            let mut msg = owned("Navigated to ");
            push_str(&mut msg, noun);
            push_str(&mut msg, ": ");
            push_str(&mut msg, items[i].name());
            *status = msg;
            true
        },
        None => {
            *status = owned(missing);
            false
        },
    }
}

/// The title for the level above from a name lookup.
fn parent_title_text(found: Option<&String>, fallback: &str) -> (s: String)
    ensures
        s@ == title_of(
            match found {
                Some(n) => n@,
                None => fallback@,
            },
        ),
{
    match found {
        Some(n) => generate_screen_title(n.as_str()),
        None => generate_screen_title(fallback),
    }
}

/// The name of the first workspace with the given id.
fn workspace_name<'a>(ws: &'a Vec<Workspace>, id: &Option<String>) -> (r: Option<&'a String>)
    ensures
        match id {
            Some(i) => match r {
                Some(n) => name_by_id(workspace_entries(ws@), i@) == Some(n@),
                None => name_by_id(workspace_entries(ws@), i@) is None,
            },
            None => r is None,
        },
{
    match id {
        None => None,
        Some(target) => {
            let ghost e = workspace_entries(ws@);
            let mut i: usize = 0;
            assert(e.skip(0) =~= e);
            while i < ws.len()
                invariant
                    i <= ws@.len(),
                    id is Some && id->0@ == target@,
                    e == workspace_entries(ws@),
                    name_by_id(e, target@) == name_by_id(e.skip(i as int), target@),
                decreases ws@.len() - i,
            {
                proof {
                    lemma_name_by_id_step(e, i as int, target@);
                    assert(e[i as int] == (ws@[i as int].id@, ws@[i as int].name@));
                }
                if str_eq(ws[i].id.as_str(), target.as_str()) {
                    return Some(&ws[i].name);
                }
                i = i + 1;
            }
            assert(e.skip(i as int).len() == 0);
            None
        },
    }
}

/// The name of the first space with the given id.
fn space_name<'a>(ss: &'a Vec<Space>, id: &Option<String>) -> (r: Option<&'a String>)
    ensures
        match id {
            Some(i) => match r {
                Some(n) => name_by_id(space_entries(ss@), i@) == Some(n@),
                None => name_by_id(space_entries(ss@), i@) is None,
            },
            None => r is None,
        },
{
    match id {
        None => None,
        Some(target) => {
            let ghost e = space_entries(ss@);
            let mut i: usize = 0;
            assert(e.skip(0) =~= e);
            while i < ss.len()
                invariant
                    i <= ss@.len(),
                    id is Some && id->0@ == target@,
                    e == space_entries(ss@),
                    name_by_id(e, target@) == name_by_id(e.skip(i as int), target@),
                decreases ss@.len() - i,
            {
                proof {
                    lemma_name_by_id_step(e, i as int, target@);
                    assert(e[i as int] == (ss@[i as int].id@, ss@[i as int].name@));
                }
                if str_eq(ss[i].id.as_str(), target.as_str()) {
                    return Some(&ss[i].name);
                }
                i = i + 1;
            }
            assert(e.skip(i as int).len() == 0);
            None
        },
    }
}

/// The name of the first folder with the given id.
fn folder_name<'a>(fs: &'a Vec<Folder>, id: &Option<String>) -> (r: Option<&'a String>)
    ensures
        match id {
            Some(i) => match r {
                Some(n) => name_by_id(folder_entries(fs@), i@) == Some(n@),
                None => name_by_id(folder_entries(fs@), i@) is None,
            },
            None => r is None,
        },
{
    match id {
        None => None,
        Some(target) => {
            let ghost e = folder_entries(fs@);
            let mut i: usize = 0;
            assert(e.skip(0) =~= e);
            while i < fs.len()
                invariant
                    i <= fs@.len(),
                    id is Some && id->0@ == target@,
                    e == folder_entries(fs@),
                    name_by_id(e, target@) == name_by_id(e.skip(i as int), target@),
                decreases fs@.len() - i,
            {
                proof {
                    lemma_name_by_id_step(e, i as int, target@);
                    assert(e[i as int] == (fs@[i as int].id@, fs@[i as int].name@));
                }
                if str_eq(fs[i].id.as_str(), target.as_str()) {
                    return Some(&fs[i].name);
                }
                i = i + 1;
            }
            assert(e.skip(i as int).len() == 0);
            None
        },
    }
}

/// The name of the first list with the given id.
fn list_name<'a>(ls: &'a Vec<List>, id: &Option<String>) -> (r: Option<&'a String>)
    ensures
        match id {
            Some(i) => match r {
                Some(n) => name_by_id(list_entries(ls@), i@) == Some(n@),
                None => name_by_id(list_entries(ls@), i@) is None,
            },
            None => r is None,
        },
{
    match id {
        None => None,
        Some(target) => {
            let ghost e = list_entries(ls@);
            let mut i: usize = 0;
            assert(e.skip(0) =~= e);
            while i < ls.len()
                invariant
                    i <= ls@.len(),
                    id is Some && id->0@ == target@,
                    e == list_entries(ls@),
                    name_by_id(e, target@) == name_by_id(e.skip(i as int), target@),
                decreases ls@.len() - i,
            {
                proof {
                    lemma_name_by_id_step(e, i as int, target@);
                    assert(e[i as int] == (ls@[i as int].id@, ls@[i as int].name@));
                }
                if str_eq(ls[i].id.as_str(), target.as_str()) {
                    return Some(&ls[i].name);
                }
                i = i + 1;
            }
            assert(e.skip(i as int).len() == 0);
            None
        },
    }
}

/// Shows `items` in the sidebar and selects the entry with the remembered
/// id, or the first entry; returns whether the id was remembered but not
/// found.
fn show_level(sidebar: &mut SidebarState, items: Vec<SidebarItem>, id: &Option<String>) -> (missed:
    bool)
    ensures
        final(sidebar).list.items@ == items@,
        final(sidebar).visible == old(sidebar).visible,
        final(sidebar).list.selected == restored_selection(items@, *id, old(sidebar).list.selected),
        missed == restore_misses(items@, *id),
{
    sidebar.list.items = items;
    match id {
        Some(i) => {
            if sidebar.select_by_id(i.as_str()) {
                false
            } else {
                sidebar.select_first();
                true
            }
        },
        None => {
            sidebar.select_first();
            false
        },
    }
}

/// The title of the task list.
fn tasks_title_text(lists: &Vec<List>, assigned_only: bool) -> (s: String)
    ensures
        s@ == tasks_title(lists@, assigned_only),
{
    if lists.len() > 0 {
        let mut base = owned("Tasks: ");
        push_str(&mut base, lists[0].name.as_str());
        if assigned_only {
            push_str(&mut base, " (Assigned to Me)");
        }
        generate_screen_title(base.as_str())
    } else if assigned_only {
        generate_screen_title("Tasks (Assigned to Me)")
    } else {
        generate_screen_title("Tasks")
    }
}

/// A copy of an optional string.
fn clone_opt(o: &Option<String>) -> (r: Option<String>)
    ensures
        r == *o,
{
    match o {
        Some(s) => Some(s.clone()),
        None => None,
    }
}

impl Navigator {
    /// Enters the selected entry of the sidebar (Enter on a hierarchy
    /// screen). Returns what has to be loaded for the level entered.
    pub fn navigate_into(&mut self) -> (req: Option<LoadRequest>)
        ensures
            into_post(*old(self), *final(self), req),
    {
        let screen = self.screen;
        let picked: Option<(String, String)> = match (screen, self.sidebar.selected_item()) {
            (Screen::Workspaces, Some(SidebarItem::Workspace { name, id })) => Some(
                (id.clone(), name.clone()),
            ),
            (Screen::Spaces, Some(SidebarItem::Space { name, id })) => Some(
                (id.clone(), name.clone()),
            ),
            (Screen::Folders, Some(SidebarItem::Folder { name, id })) => Some(
                (id.clone(), name.clone()),
            ),
            (Screen::Lists, Some(SidebarItem::List { name, id })) => Some(
                (id.clone(), name.clone()),
            ),
            _ => None,
        };
        match picked {
            None => None,
            Some((id, name)) => match screen {
                Screen::Workspaces => {
                    self.current_workspace_id = Some(id.clone());
                    self.current_space_id = None;
                    self.current_folder_id = None;
                    self.current_list_id = None;
                    self.screen = Screen::Spaces;
                    self.screen_title = generate_screen_title(name.as_str());
                    Some(LoadRequest::Spaces(id))
                },
                Screen::Spaces => {
                    self.current_space_id = Some(id.clone());
                    self.current_folder_id = None;
                    self.current_list_id = None;
                    self.screen = Screen::Folders;
                    self.screen_title = generate_screen_title(name.as_str());
                    Some(LoadRequest::Folders(id))
                },
                Screen::Folders => {
                    self.current_folder_id = Some(id.clone());
                    self.current_list_id = None;
                    self.screen = Screen::Lists;
                    self.screen_title = generate_screen_title(name.as_str());
                    Some(LoadRequest::Lists(id))
                },
                _ => {
                    self.current_list_id = Some(id.clone());
                    self.screen = Screen::Tasks;
                    let mut ctx = owned("Tasks: ");
                    push_str(&mut ctx, name.as_str());
                    self.screen_title = generate_screen_title(ctx.as_str());
                    proof {
                        reveal_strlit("Tasks: ");
                    }
                    Some(LoadRequest::Tasks(id))
                },
            },
        }
    }
    /// Sets the title bar for the current screen; `task_name` is the name of
    /// the open task and `document_title` the title of the open document.
    pub fn update_screen_title(&mut self, task_name: Option<&str>, document_title: &str)
        ensures
            *final(self) == (Navigator { screen_title: final(self).screen_title, ..*old(self) }),
            final(self).screen_title@ == title_of(
                screen_context(
                    *old(self),
                    match task_name {
                        Some(t) => Some(t@),
                        None => None,
                    },
                    document_title@,
                ),
            ),
    {
        let title = match self.screen {
            Screen::Auth => generate_screen_title("Authentication"),
            Screen::Workspaces => generate_screen_title("Workspaces"),
            Screen::Spaces => if self.spaces.len() > 0 {
                generate_screen_title(self.spaces[0].name.as_str())
            } else {
                generate_screen_title("Spaces")
            },
            Screen::Folders => if self.folders.len() > 0 {
                generate_screen_title(self.folders[0].name.as_str())
            } else {
                generate_screen_title("Folders")
            },
            Screen::Lists => if self.lists.len() > 0 {
                generate_screen_title(self.lists[0].name.as_str())
            } else {
                generate_screen_title("Lists")
            },
            Screen::Tasks => tasks_title_text(&self.lists, self.assigned_filter_active),
            Screen::TaskDetail => match task_name {
                Some(t) => {
                    let mut ctx = owned("Task: ");
                    push_str(&mut ctx, t);
                    generate_screen_title(ctx.as_str())
                },
                None => generate_screen_title("Task Detail"),
            },
            Screen::Document => if document_title.is_empty() {
                generate_screen_title("Document")
            } else {
                let mut ctx = owned("Doc: ");
                push_str(&mut ctx, document_title);
                generate_screen_title(ctx.as_str())
            },
        };
        self.screen_title = title;
    }

    /// Handles a key on a hierarchy screen: j/k (or the arrows) move the
    /// selection, Enter enters the selected entry, Esc goes back, Tab shows
    /// or hides the sidebar. Returns what has to be loaded.
    pub fn update_navigation(&mut self, key: KeyEvent) -> (req: Option<LoadRequest>)
        ensures
            match key.code {
                KeyCode::Char('j') | KeyCode::Down => {
                    &&& *final(self) == (Navigator { sidebar: final(self).sidebar, ..*old(self) })
                    &&& final(self).sidebar.list.items@ == old(self).sidebar.list.items@
                    &&& final(self).sidebar.visible == old(self).sidebar.visible
                    &&& final(self).sidebar.list.selected == if old(
                        self,
                    ).sidebar.list.items@.len() == 0 {
                        old(self).sidebar.list.selected
                    } else {
                        Some(
                            wrap_next(
                                old(self).sidebar.list.selected,
                                old(self).sidebar.list.items@.len(),
                            ),
                        )
                    }
                    &&& req is None
                },
                KeyCode::Char('k') | KeyCode::Up => {
                    &&& *final(self) == (Navigator { sidebar: final(self).sidebar, ..*old(self) })
                    &&& final(self).sidebar.list.items@ == old(self).sidebar.list.items@
                    &&& final(self).sidebar.visible == old(self).sidebar.visible
                    &&& final(self).sidebar.list.selected == if old(
                        self,
                    ).sidebar.list.items@.len() == 0 {
                        old(self).sidebar.list.selected
                    } else {
                        Some(
                            wrap_previous(
                                old(self).sidebar.list.selected,
                                old(self).sidebar.list.items@.len(),
                            ),
                        )
                    }
                    &&& req is None
                },
                KeyCode::Enter => into_post(*old(self), *final(self), req),
                KeyCode::Esc => back_post(*old(self), *final(self)) && req is None,
                KeyCode::Tab => {
                    &&& *final(self) == Navigator { sidebar: final(self).sidebar, ..*old(self) }
                    &&& final(self).sidebar.list == old(self).sidebar.list
                    &&& final(self).sidebar.visible == !old(self).sidebar.visible
                    &&& req is None
                },
                _ => *final(self) == *old(self) && req is None,
            },
    {
        match key.code {
            KeyCode::Char('j') | KeyCode::Down => {
                self.sidebar.select_next();
                None
            },
            KeyCode::Char('k') | KeyCode::Up => {
                self.sidebar.select_previous();
                None
            },
            KeyCode::Enter => self.navigate_into(),
            KeyCode::Esc => {
                self.navigate_back();
                None
            },
            KeyCode::Tab => {
                self.sidebar.visible = !self.sidebar.visible;
                None
            },
            _ => None,
        }
    }

    /// Shows the entries of a level that arrived (see `level_loaded`);
    /// `name` is the name of the entry with the restore id, when there is
    /// one. Returns the id of the entry to descend into.
    fn apply_level(
        &mut self,
        restore: &mut SessionRestore,
        items: Vec<SidebarItem>,
        restore_id: Option<String>,
        current_id: Option<String>,
        name: Option<String>,
        entries: Ghost<Seq<(Seq<char>, Seq<char>)>>,
        here: Screen,
        next: Screen,
        here_name: &str,
        next_prefix: &str,
        missing: &str,
        noun: &str,
    ) -> (descend: Option<String>)
        requires
            match restore_id {
                Some(r) => opt_text(name) == name_by_id(entries@, r@),
                None => true,
            },
        ensures
            *final(self) == (Navigator {
                sidebar: final(self).sidebar,
                screen: final(self).screen,
                screen_title: final(self).screen_title,
                status: final(self).status,
                ..*old(self)
            }),
            level_loaded(
                *old(self),
                *final(self),
                *old(restore),
                *final(restore),
                items@,
                entries@,
                restore_id,
                current_id,
                here,
                next,
                here_name@,
                next_prefix@,
                missing@,
                noun@,
                descend,
            ),
    {
        let n = items.len();
        self.sidebar.list.items = items;
        if restore.restoring {
            match restore_id {
                Some(r) => {
                    if self.sidebar.select_by_id(r.as_str()) {
                        let mut ctx = owned(next_prefix);
                        match &name {
                            Some(nm) => push_str(&mut ctx, nm.as_str()),
                            None => {},
                        }
                        proof {
                            if name is None {
                                assert(ctx@ =~= next_prefix@ + Seq::<char>::empty());
                            }
                        }
                        self.screen = next;
                        self.screen_title = generate_screen_title(ctx.as_str());
                        Some(r)
                    } else {
                        restore.restoring = false;
                        self.screen = here;
                        self.screen_title = generate_screen_title(here_name);
                        self.status = owned(missing);
                        None
                    }
                },
                None => {
                    restore.restoring = false;
                    self.sidebar.select_first();
                    self.status = loaded_text(n, noun);
                    None
                },
            }
        } else {
            match &current_id {
                Some(c) => {
                    if !self.sidebar.select_by_id(c.as_str()) {
                        self.sidebar.select_first();
                    }
                },
                None => {
                    self.sidebar.select_first();
                },
            }
            self.status = loaded_text(n, noun);
            None
        }
    }

    /// Takes the answer to loading the workspaces (see `level_loaded`); the
    /// application state becomes `Main` when they arrived.
    pub fn workspaces_loaded(
        &mut self,
        result: Result<Vec<Workspace>, String>,
        restore: &mut SessionRestore,
        error: &mut Option<String>,
        state: &mut AppState,
    ) -> (req: Option<LoadRequest>)
        ensures
            match result {
                Ok(ws) => {
                    &&& *final(self) == (Navigator {
                        workspaces: ws,
                        sidebar: final(self).sidebar,
                        screen: final(self).screen,
                        screen_title: final(self).screen_title,
                        status: final(self).status,
                        ..*old(self)
                    })
                    &&& level_loaded(
                        *old(self),
                        *final(self),
                        *old(restore),
                        *final(restore),
                        workspace_items(ws@),
                        workspace_entries(ws@),
                        old(restore).workspace_id,
                        old(self).current_workspace_id,
                        Screen::Workspaces,
                        Screen::Spaces,
                        "Workspaces"@,
                        ""@,
                        "Saved workspace not found, showing workspaces"@,
                        "workspace"@,
                        load_target(req),
                    )
                    &&& (req is None || req matches Some(LoadRequest::Spaces(_)))
                    &&& *final(error) is None
                    &&& *final(state) == AppState::Main
                },
                Err(e) => {
                    &&& level_failed(
                        *old(self),
                        *final(self),
                        *old(restore),
                        *final(restore),
                        "workspaces"@,
                        e@,
                        opt_text(*final(error)),
                    )
                    &&& req is None
                    &&& *final(state) == *old(state)
                },
            },
    {
        match result {
            Ok(ws) => {
                self.workspaces = ws;
                let items = workspace_sidebar(&self.workspaces);
                let rid = restore.workspace_id.clone();
                let name = match workspace_name(&self.workspaces, &rid) {
                    Some(n) => Some(n.clone()),
                    None => None,
                };
                let cur = self.current_workspace_id.clone();
                let descend = self.apply_level(
                    restore,
                    items,
                    rid,
                    cur,
                    name,
                    Ghost(workspace_entries(self.workspaces@)),
                    Screen::Workspaces,
                    Screen::Spaces,
                    "Workspaces",
                    "",
                    "Saved workspace not found, showing workspaces",
                    "workspace",
                );
                *error = None;
                *state = AppState::Main;
                match descend {
                    Some(r) => Some(LoadRequest::Spaces(r)),
                    None => None,
                }
            },
            Err(e) => {
                let (st, er) = failure_texts("workspaces", e.as_str());
                self.status = st;
                *error = Some(er);
                restore.restoring = false;
                None
            },
        }
    }

    /// Takes the answer to loading the spaces (see `level_loaded`).
    pub fn spaces_loaded(
        &mut self,
        result: Result<Vec<Space>, String>,
        restore: &mut SessionRestore,
        error: &mut Option<String>,
    ) -> (req: Option<LoadRequest>)
        ensures
            match result {
                Ok(v) => {
                    &&& *final(self) == (Navigator {
                        spaces: v,
                        sidebar: final(self).sidebar,
                        screen: final(self).screen,
                        screen_title: final(self).screen_title,
                        status: final(self).status,
                        ..*old(self)
                    })
                    &&& level_loaded(
                        *old(self),
                        *final(self),
                        *old(restore),
                        *final(restore),
                        space_items(v@),
                        space_entries(v@),
                        old(restore).space_id,
                        old(self).current_space_id,
                        Screen::Spaces,
                        Screen::Folders,
                        "Spaces"@,
                        ""@,
                        "Saved space not found, showing spaces"@,
                        "space"@,
                        load_target(req),
                    )
                    &&& (req is None || req matches Some(LoadRequest::Folders(_)))
                    &&& *final(error) is None
                },
                Err(e) => {
                    &&& level_failed(
                        *old(self),
                        *final(self),
                        *old(restore),
                        *final(restore),
                        "spaces"@,
                        e@,
                        opt_text(*final(error)),
                    )
                    &&& req is None
                },
            },
    {
        match result {
            Ok(v) => {
                self.spaces = v;
                let items = space_sidebar(&self.spaces);
                let rid = restore.space_id.clone();
                let name = match space_name(&self.spaces, &rid) {
                    Some(n) => Some(n.clone()),
                    None => None,
                };
                let cur = self.current_space_id.clone();
                let descend = self.apply_level(
                    restore,
                    items,
                    rid,
                    cur,
                    name,
                    Ghost(space_entries(self.spaces@)),
                    Screen::Spaces,
                    Screen::Folders,
                    "Spaces",
                    "",
                    "Saved space not found, showing spaces",
                    "space",
                );
                *error = None;
                match descend {
                    Some(r) => Some(LoadRequest::Folders(r)),
                    None => None,
                }
            },
            Err(e) => {
                let (st, er) = failure_texts("spaces", e.as_str());
                self.status = st;
                *error = Some(er);
                restore.restoring = false;
                None
            },
        }
    }

    /// Takes the answer to loading the folders (see `level_loaded`).
    pub fn folders_loaded(
        &mut self,
        result: Result<Vec<Folder>, String>,
        restore: &mut SessionRestore,
        error: &mut Option<String>,
    ) -> (req: Option<LoadRequest>)
        ensures
            match result {
                Ok(v) => {
                    &&& *final(self) == (Navigator {
                        folders: v,
                        sidebar: final(self).sidebar,
                        screen: final(self).screen,
                        screen_title: final(self).screen_title,
                        status: final(self).status,
                        ..*old(self)
                    })
                    &&& level_loaded(
                        *old(self),
                        *final(self),
                        *old(restore),
                        *final(restore),
                        folder_items(v@),
                        folder_entries(v@),
                        old(restore).folder_id,
                        old(self).current_folder_id,
                        Screen::Folders,
                        Screen::Lists,
                        "Folders"@,
                        ""@,
                        "Saved folder not found, showing folders"@,
                        "folder"@,
                        load_target(req),
                    )
                    &&& (req is None || req matches Some(LoadRequest::Lists(_)))
                    &&& *final(error) is None
                },
                Err(e) => {
                    &&& level_failed(
                        *old(self),
                        *final(self),
                        *old(restore),
                        *final(restore),
                        "folders"@,
                        e@,
                        opt_text(*final(error)),
                    )
                    &&& req is None
                },
            },
    {
        match result {
            Ok(v) => {
                self.folders = v;
                let items = folder_sidebar(&self.folders);
                let rid = restore.folder_id.clone();
                let name = match folder_name(&self.folders, &rid) {
                    Some(n) => Some(n.clone()),
                    None => None,
                };
                let cur = self.current_folder_id.clone();
                let descend = self.apply_level(
                    restore,
                    items,
                    rid,
                    cur,
                    name,
                    Ghost(folder_entries(self.folders@)),
                    Screen::Folders,
                    Screen::Lists,
                    "Folders",
                    "",
                    "Saved folder not found, showing folders",
                    "folder",
                );
                *error = None;
                match descend {
                    Some(r) => Some(LoadRequest::Lists(r)),
                    None => None,
                }
            },
            Err(e) => {
                let (st, er) = failure_texts("folders", e.as_str());
                self.status = st;
                *error = Some(er);
                restore.restoring = false;
                None
            },
        }
    }

    /// Takes the answer to loading the lists (see `level_loaded`).
    pub fn lists_loaded(
        &mut self,
        result: Result<Vec<List>, String>,
        restore: &mut SessionRestore,
        error: &mut Option<String>,
    ) -> (req: Option<LoadRequest>)
        ensures
            match result {
                Ok(v) => {
                    &&& *final(self) == (Navigator {
                        lists: v,
                        sidebar: final(self).sidebar,
                        screen: final(self).screen,
                        screen_title: final(self).screen_title,
                        status: final(self).status,
                        ..*old(self)
                    })
                    &&& level_loaded(
                        *old(self),
                        *final(self),
                        *old(restore),
                        *final(restore),
                        list_items(v@),
                        list_entries(v@),
                        old(restore).list_id,
                        old(self).current_list_id,
                        Screen::Lists,
                        Screen::Tasks,
                        "Lists"@,
                        "Tasks: "@,
                        "Saved list not found, showing lists"@,
                        "list"@,
                        load_target(req),
                    )
                    &&& (req is None || req matches Some(LoadRequest::Tasks(_)))
                    &&& *final(error) is None
                },
                Err(e) => {
                    &&& level_failed(
                        *old(self),
                        *final(self),
                        *old(restore),
                        *final(restore),
                        "lists"@,
                        e@,
                        opt_text(*final(error)),
                    )
                    &&& req is None
                },
            },
    {
        match result {
            Ok(v) => {
                self.lists = v;
                let items = list_sidebar(&self.lists);
                let rid = restore.list_id.clone();
                let name = match list_name(&self.lists, &rid) {
                    Some(n) => Some(n.clone()),
                    None => None,
                };
                let cur = self.current_list_id.clone();
                let descend = self.apply_level(
                    restore,
                    items,
                    rid,
                    cur,
                    name,
                    Ghost(list_entries(self.lists@)),
                    Screen::Lists,
                    Screen::Tasks,
                    "Lists",
                    "Tasks: ",
                    "Saved list not found, showing lists",
                    "list",
                );
                *error = None;
                match descend {
                    Some(r) => Some(LoadRequest::Tasks(r)),
                    None => None,
                }
            },
            Err(e) => {
                let (st, er) = failure_texts("lists", e.as_str());
                self.status = st;
                *error = Some(er);
                restore.restoring = false;
                None
            },
        }
    }

    /// Starts restoring a saved session: the saved ids become the current
    /// ones and the targets to reselect on the way down, which starts at the
    /// workspaces. A saved user id is taken unless it is 0.
    pub fn begin_restore(&mut self, saved: &SessionState, user_id: &mut Option<i32>) -> (r:
        SessionRestore)
        ensures
            r == (SessionRestore {
                restoring: true,
                workspace_id: saved.workspace_id,
                space_id: saved.space_id,
                folder_id: saved.folder_id,
                list_id: saved.list_id,
                task_id: saved.task_id,
            }),
            *final(self) == (Navigator {
                current_workspace_id: saved.workspace_id,
                current_space_id: saved.space_id,
                current_folder_id: saved.folder_id,
                current_list_id: saved.list_id,
                screen: Screen::Workspaces,
                screen_title: final(self).screen_title,
                ..*old(self)
            }),
            final(self).screen_title@ == title_of("Workspaces"@),
            *final(user_id) == match saved.user_id {
                Some(u) => if u != 0 {
                    Some(u)
                } else {
                    *old(user_id)
                },
                None => *old(user_id),
            },
    {
        let r = SessionRestore {
            restoring: true,
            workspace_id: clone_opt(&saved.workspace_id),
            space_id: clone_opt(&saved.space_id),
            folder_id: clone_opt(&saved.folder_id),
            list_id: clone_opt(&saved.list_id),
            task_id: clone_opt(&saved.task_id),
        };
        self.current_workspace_id = clone_opt(&saved.workspace_id);
        self.current_space_id = clone_opt(&saved.space_id);
        self.current_folder_id = clone_opt(&saved.folder_id);
        self.current_list_id = clone_opt(&saved.list_id);
        match saved.user_id {
            Some(u) => {
                if u != 0 {
                    *user_id = Some(u);
                }
            },
            None => {},
        }
        self.screen = Screen::Workspaces;
        self.screen_title = generate_screen_title("Workspaces");
        r
    }

    /// Switches the "assigned to me" filter of the task list; with a list
    /// open, the status says which tasks are shown and they are to be loaded
    /// again.
    pub fn toggle_assigned_filter(&mut self) -> (r: Option<TaskLoad>)
        ensures
            *final(self) == (Navigator {
                assigned_filter_active: !old(self).assigned_filter_active,
                status: final(self).status,
                ..*old(self)
            }),
            match old(self).current_list_id {
                Some(id) => if !old(self).assigned_filter_active {
                    final(self).status@ == "Filtering: Assigned to Me"@ && r == Some(
                        TaskLoad::AssignedToMe(id),
                    )
                } else {
                    final(self).status@ == "Showing all tasks"@ && r == Some(TaskLoad::All(id))
                },
                None => final(self).status == old(self).status && r is None,
            },
    {
        self.assigned_filter_active = !self.assigned_filter_active;
        match &self.current_list_id {
            Some(id) => {
                let id = id.clone();
                if self.assigned_filter_active {
                    self.status = owned("Filtering: Assigned to Me");
                    Some(TaskLoad::AssignedToMe(id))
                } else {
                    self.status = owned("Showing all tasks");
                    Some(TaskLoad::All(id))
                }
            },
            None => None,
        }
    }

    /// Goes back one level (Esc).
    pub fn navigate_back(&mut self)
        ensures
            back_post(*old(self), *final(self)),
    {
        match self.screen {
            Screen::Auth | Screen::Workspaces => {},
            Screen::Spaces => {
                self.current_space_id = None;
                self.current_folder_id = None;
                self.current_list_id = None;
                let items = workspace_sidebar(&self.workspaces);
                if show_level(&mut self.sidebar, items, &self.current_workspace_id) {
                    self.status = owned("Saved workspace not found, showing workspaces");
                }
                self.screen = Screen::Workspaces;
                self.screen_title = generate_screen_title("Workspaces");
            },
            Screen::Folders => {
                self.current_folder_id = None;
                self.current_list_id = None;
                let items = space_sidebar(&self.spaces);
                if show_level(&mut self.sidebar, items, &self.current_space_id) {
                    self.status = owned("Saved space not found, showing spaces");
                }
                self.screen = Screen::Spaces;
                let title = parent_title_text(
                    workspace_name(&self.workspaces, &self.current_workspace_id),
                    "Workspaces",
                );
                self.screen_title = title;
            },
            Screen::Lists => {
                self.current_list_id = None;
                let items = folder_sidebar(&self.folders);
                if show_level(&mut self.sidebar, items, &self.current_folder_id) {
                    self.status = owned("Saved folder not found, showing folders");
                }
                self.screen = Screen::Folders;
                let title = parent_title_text(
                    space_name(&self.spaces, &self.current_space_id),
                    "Spaces",
                );
                self.screen_title = title;
            },
            Screen::Tasks => {
                self.current_list_id = None;
                let items = list_sidebar(&self.lists);
                if show_level(&mut self.sidebar, items, &self.current_list_id) {
                    self.status = owned("Saved list not found, showing lists");
                }
                self.screen = Screen::Lists;
                let title = parent_title_text(
                    folder_name(&self.folders, &self.current_folder_id),
                    "Folders",
                );
                self.screen_title = title;
            },
            Screen::TaskDetail => {
                self.screen = Screen::Tasks;
                if self.lists.len() > 0 {
                    let mut ctx = owned("Tasks: ");
                    push_str(&mut ctx, self.lists[0].name.as_str());
                    self.screen_title = generate_screen_title(ctx.as_str());
                }
            },
            Screen::Document => {
                self.screen = Screen::Tasks;
                self.screen_title = tasks_title_text(&self.lists, self.assigned_filter_active);
            },
        }
    }

    /// Takes the signed-in user's id, fetched in the background: it becomes
    /// the current user (as an `i32`, as the filter keeps it), and while the
    /// tasks are filtered to the user's own the open list is to be loaded again
    /// with it. Returns that list; a failed fetch changes nothing.
    pub fn current_user_loaded(&self, result: Result<i64, String>, user: &mut Option<i32>) -> (reload:
        Option<String>)
        ensures
            match result {
                Ok(id) => {
                    &&& *final(user) == Some(id as i32)
                    &&& reload == if self.assigned_filter_active {
                        self.current_list_id
                    } else {
                        None
                    }
                },
                Err(_) => *final(user) == *old(user) && reload is None,
            },
    {
        match result {
            Ok(id) => {
                *user = Some(id as i32);
                if self.assigned_filter_active {
                    match &self.current_list_id {
                        Some(l) => Some(l.clone()),
                        None => None,
                    }
                } else {
                    None
                }
            },
            Err(_) => None,
        }
    }

    /// Takes the outcome of storing the token of a sign-in: when it could not
    /// be stored the form says why and signing in stops; otherwise the form is
    /// cleared, the application runs and the workspaces screen opens while they
    /// load. Returns whether signing in goes on.
    pub fn token_saved(
        &mut self,
        saved: Result<(), String>,
        auth: &mut AuthState,
        state: &mut AppState,
    ) -> (go_on: bool)
        ensures
            go_on == saved is Ok,
            !final(auth).loading,
            match saved {
                Ok(()) => {
                    &&& final(auth).token_input@.len() == 0
                    &&& final(auth).cursor_pos == 0
                    &&& final(auth).error is None
                    &&& *final(state) == AppState::Main
                    &&& *final(self) == (Navigator {
                        screen: Screen::Workspaces,
                        screen_title: final(self).screen_title,
                        status: final(self).status,
                        ..*old(self)
                    })
                    &&& final(self).screen_title@ == title_of("Workspaces"@)
                    &&& final(self).status@ == "Authenticated! Loading workspaces..."@
                },
                Err(e) => {
                    &&& final(auth).token_input == old(auth).token_input
                    &&& final(auth).cursor_pos == old(auth).cursor_pos
                    &&& final(auth).error matches Some(m) && m@ == "Failed to save token: "@ + e@
                    &&& *final(state) == *old(state)
                    &&& *final(self) == (Navigator { status: final(self).status, ..*old(self) })
                    &&& final(self).status@ == "Failed to save token"@
                },
            },
    {
        match saved {
            Ok(()) => {
                auth.clear();
                auth.loading = false;
                *state = AppState::Main;
                self.screen = Screen::Workspaces;
                self.screen_title = generate_screen_title("Workspaces");
                self.status = owned("Authenticated! Loading workspaces...");
                true
            },
            Err(e) => {
                let mut msg = owned("Failed to save token: ");
                push_str(&mut msg, e.as_str());
                auth.error = Some(msg);
                auth.loading = false;
                self.status = owned("Failed to save token");
                false
            },
        }
    }

    /// Jumps from a link to a workspace: unless it is the one selected on the
    /// workspaces screen (`Already viewing this workspace`), the workspaces
    /// screen shows with nothing entered and the workspace selected (see
    /// `jumped`).
    pub fn navigate_to_workspace(&mut self, workspace_id: &str)
        ensures
            workspace_jump(*old(self), *final(self), workspace_id@),
    {
        proof {
            reveal_strlit("");
        }
        if self.screen == Screen::Workspaces {
            match self.sidebar.selected_item() {
                Some(item) => {
                    let selected = match item {
                        SidebarItem::Workspace { id, .. } => id.as_str(),
                        _ => "",
                    };
                    assert(Some(selected@) == selected_workspace_id(self.sidebar));
                    if str_eq(selected, workspace_id) {
                        self.status = owned("Already viewing this workspace");
                        return;
                    }
                },
                None => {},
            }
        }
        self.screen = Screen::Workspaces;
        self.current_workspace_id = None;
        self.current_space_id = None;
        self.current_folder_id = None;
        self.current_list_id = None;
        let items = workspace_sidebar(&self.workspaces);
        if jump(
            &mut self.sidebar,
            &items,
            workspace_id,
            "workspace",
            "Workspace not found in current workspace list",
            &mut self.status,
        ) {
            self.current_workspace_id = Some(owned(workspace_id));
        }
    }

    /// Jumps from a link to a space of a workspace: the spaces screen shows
    /// with the space selected (see `jumped`); when the space is not among
    /// those loaded, the spaces of the workspace have to be loaded.
    pub fn navigate_to_space(&mut self, workspace_id: &str, space_id: &str) -> (req: Option<
        LoadRequest,
    >)
        ensures
            space_jump(*old(self), *final(self), workspace_id@, space_id@, req),
    {
        self.current_workspace_id = Some(owned(workspace_id));
        self.screen = Screen::Spaces;
        self.current_space_id = None;
        self.current_folder_id = None;
        self.current_list_id = None;
        let items = space_sidebar(&self.spaces);
        if jump(&mut self.sidebar, &items, space_id, "space", "", &mut self.status) {
            self.current_space_id = Some(owned(space_id));
            None
        } else {
            self.status = owned("Loading spaces...");
            Some(LoadRequest::Spaces(owned(workspace_id)))
        }
    }

    /// Jumps from a link to a folder: the folders screen shows with the
    /// folder selected (see `jumped`).
    pub fn navigate_to_folder(&mut self, workspace_id: &str, folder_id: &str)
        ensures
            folder_jump(*old(self), *final(self), workspace_id@, folder_id@),
    {
        self.current_workspace_id = Some(owned(workspace_id));
        self.current_space_id = None;
        self.current_folder_id = None;
        self.current_list_id = None;
        self.screen = Screen::Folders;
        let items = folder_sidebar(&self.folders);
        if jump(
            &mut self.sidebar,
            &items,
            folder_id,
            "folder",
            "Folder not found in current folder list",
            &mut self.status,
        ) {
            self.current_folder_id = Some(owned(folder_id));
        }
    }

    /// Jumps from a link to a list: the lists screen shows with the list
    /// selected (see `jumped`).
    pub fn navigate_to_list(&mut self, workspace_id: &str, list_id: &str)
        ensures
            list_jump(*old(self), *final(self), workspace_id@, list_id@),
    {
        self.current_workspace_id = Some(owned(workspace_id));
        self.current_space_id = None;
        self.current_folder_id = None;
        self.current_list_id = None;
        self.screen = Screen::Lists;
        let items = list_sidebar(&self.lists);
        if jump(
            &mut self.sidebar,
            &items,
            list_id,
            "list",
            "List not found in current list",
            &mut self.status,
        ) {
            self.current_list_id = Some(owned(list_id));
        }
    }

    /// A link led to a task, which arrived: its detail screen opens.
    pub fn task_reached(&mut self, task_name: &str)
        ensures
            *final(self) == (Navigator {
                screen: Screen::TaskDetail,
                status: final(self).status,
                ..*old(self)
            }),
            final(self).status@ == "Navigated to task: "@ + task_name@,
    {
        self.screen = Screen::TaskDetail;
        let mut msg = owned("Navigated to task: ");
        push_str(&mut msg, task_name);
        self.status = msg;
    }

    /// A link led to a document, which arrived: the document screen opens
    /// with its name as title.
    pub fn document_reached(&mut self, document_name: &str)
        ensures
            *final(self) == (Navigator {
                screen: Screen::Document,
                screen_title: final(self).screen_title,
                status: final(self).status,
                ..*old(self)
            }),
            final(self).screen_title@ == title_of(document_name@),
            final(self).status@ == "Navigated to document: "@ + document_name@,
    {
        self.screen = Screen::Document;
        self.screen_title = generate_screen_title(document_name);
        let mut msg = owned("Navigated to document: ");
        push_str(&mut msg, document_name);
        self.status = msg;
    }

    /// What a link led to could not be fetched: the screen shown before comes
    /// back and the status gives the reason (`{what} not found: {e}`).
    pub fn link_not_found(&mut self, what: &str, e: &str, previous: Screen)
        ensures
            *final(self) == (Navigator { screen: previous, status: final(self).status, ..*old(self) }),
            final(self).status@ == what@ + " not found: "@ + e@,
    {
        self.screen = previous;
        let mut msg = owned(what);
        push_str(&mut msg, " not found: ");
        push_str(&mut msg, e);
        self.status = msg;
    }

    /// Takes the answer to creating a task (`Ok` with the new task's name):
    /// the form closes, emptied, and the task list comes back, to be loaded
    /// again with the same filter. On failure the form stays open.
    pub fn task_created(
        &mut self,
        result: Result<String, String>,
        form: &mut TaskForm,
        detail: &mut TaskDetailState,
        error: &mut Option<String>,
    ) -> (r: Option<TaskLoad>)
        ensures
            match result {
                Ok(name) => {
                    &&& *final(self) == (Navigator {
                        screen: Screen::Tasks,
                        screen_title: final(self).screen_title,
                        status: final(self).status,
                        ..*old(self)
                    })
                    &&& final(self).screen_title@ == tasks_title(
                        old(self).lists@,
                        old(self).assigned_filter_active,
                    )
                    &&& final(self).status@ == "Task created: "@ + name@
                    &&& final(form).name@.len() == 0
                    &&& final(form).description@.len() == 0
                    &&& final(form).focus == old(form).focus
                    &&& *final(detail) == (TaskDetailState { creating: false, ..*old(detail) })
                    &&& *final(error) == *old(error)
                    &&& r == match old(self).current_list_id {
                        Some(id) => if old(self).assigned_filter_active {
                            Some(TaskLoad::AssignedToMe(id))
                        } else {
                            Some(TaskLoad::All(id))
                        },
                        None => None,
                    }
                },
                Err(e) => {
                    &&& *final(self) == (Navigator { status: final(self).status, ..*old(self) })
                    &&& final(self).status@ == "Task creation failed"@
                    &&& *final(form) == *old(form)
                    &&& *final(detail) == *old(detail)
                    &&& *final(error) matches Some(m) && m@ == "Failed to create task: "@ + e@
                    &&& r is None
                },
            },
    {
        match result {
            Ok(name) => {
                form.name = String::new();
                form.description = String::new();
                detail.creating = false;
                let mut msg = owned("Task created: ");
                push_str(&mut msg, name.as_str());
                self.status = msg;
                let load = match &self.current_list_id {
                    Some(id) => if self.assigned_filter_active {
                        Some(TaskLoad::AssignedToMe(id.clone()))
                    } else {
                        Some(TaskLoad::All(id.clone()))
                    },
                    None => None,
                };
                self.screen = Screen::Tasks;
                self.screen_title = tasks_title_text(&self.lists, self.assigned_filter_active);
                load
            },
            Err(e) => {
                let mut msg = owned("Failed to create task: ");
                push_str(&mut msg, e.as_str());
                *error = Some(msg);
                self.status = owned("Task creation failed");
                None
            },
        }
    }

    /// Opens the task-creation form (`n` on the task list): empty fields,
    /// the name focused, the detail panel creating a task and showing none.
    pub fn open_task_form(&mut self, form: &mut TaskForm, detail: &mut TaskDetailState)
        ensures
            *final(self) == (Navigator {
                screen: Screen::TaskDetail,
                screen_title: final(self).screen_title,
                status: final(self).status,
                ..*old(self)
            }),
            final(self).screen_title@ == title_of("New Task"@),
            final(self).status@ == "Enter task name (Ctrl+S to create, Esc to cancel)"@,
            final(form).name@.len() == 0,
            final(form).description@.len() == 0,
            final(form).focus == TaskCreationField::Name,
            final(detail).task is None,
            final(detail).creating,
            !final(detail).editing,
            final(detail).description_scroll == old(detail).description_scroll,
    {
        *form = TaskForm::new();
        detail.task = None;
        detail.creating = true;
        detail.editing = false;
        self.screen = Screen::TaskDetail;
        self.screen_title = generate_screen_title("New Task");
        self.status = owned("Enter task name (Ctrl+S to create, Esc to cancel)");
    }
}

/// Entering the selected entry of the workspace, space or folder level and
/// going back shows that level again, with the same entries, the entered
/// entry selected (the first entry with its id) and the status unchanged;
/// this holds when the sidebar lists the entries of that level.
pub proof fn lemma_into_then_back(
    a: Navigator,
    b: Navigator,
    c: Navigator,
    req: Option<LoadRequest>,
)
    requires
        into_post(a, b, req),
        back_post(b, c),
        req is Some,
        a.screen != Screen::Lists,
        a.screen == Screen::Workspaces ==> a.sidebar.list.items@ == workspace_items(a.workspaces@),
        a.screen == Screen::Spaces ==> a.sidebar.list.items@ == space_items(a.spaces@),
        a.screen == Screen::Folders ==> a.sidebar.list.items@ == folder_items(a.folders@),
    ensures
        c.screen == a.screen,
        c.sidebar.list.items@ == a.sidebar.list.items@,
        selected_of(a.sidebar) is Some,
        c.sidebar.list.selected == Some(
            first_with_id(a.sidebar.list.items@, item_id(selected_of(a.sidebar)->0))->0 as usize,
        ),
        selected_of(c.sidebar) is Some,
        item_id(selected_of(c.sidebar)->0) == item_id(selected_of(a.sidebar)->0),
        c.status@ == a.status@,
{
    let items = a.sidebar.list.items@;
    let i = a.sidebar.list.selected->0;
    let id = item_id(items[i as int]);
    assert(0 <= i < items.len() && item_id(items[i as int]) == id);
    lemma_first_with_id_found(items, id, i as int);
    assert(b.sidebar == a.sidebar);
    if a.screen == Screen::Workspaces {
        assert(b.screen == Screen::Spaces);
        assert(b.workspaces == a.workspaces);
        assert(b.current_workspace_id matches Some(w) && w@ == id);
    } else if a.screen == Screen::Spaces {
        assert(b.screen == Screen::Folders);
        assert(b.spaces == a.spaces);
        assert(b.current_space_id matches Some(w) && w@ == id);
    } else {
        assert(b.screen == Screen::Lists);
        assert(b.folders == a.folders);
        assert(b.current_folder_id matches Some(w) && w@ == id);
    }
}

/// While a session is restored, a level whose loaded entries hold the saved
/// entry selects it and asks for the level below it, still restoring; when
/// the saved entry is not among them, restoring stops on this level.
pub proof fn lemma_restore_descends(
    a: Navigator,
    b: Navigator,
    ra: SessionRestore,
    rb: SessionRestore,
    items: Seq<SidebarItem>,
    entries: Seq<(Seq<char>, Seq<char>)>,
    saved: String,
    current_id: Option<String>,
    here: Screen,
    next: Screen,
    here_name: Seq<char>,
    next_prefix: Seq<char>,
    missing: Seq<char>,
    noun: Seq<char>,
    descend: Option<String>,
)
    requires
        ra.restoring,
        level_loaded(
            a,
            b,
            ra,
            rb,
            items,
            entries,
            Some(saved),
            current_id,
            here,
            next,
            here_name,
            next_prefix,
            missing,
            noun,
            descend,
        ),
    ensures
        (exists|i: int| 0 <= i < items.len() && item_id(items[i]) == saved@) ==> {
            &&& descend == Some(saved)
            &&& rb.restoring
            &&& b.screen == next
            &&& selected_of(b.sidebar) matches Some(it) && item_id(it) == saved@
        },
        !(exists|i: int| 0 <= i < items.len() && item_id(items[i]) == saved@) ==> {
            &&& descend is None
            &&& !rb.restoring
            &&& b.screen == here
            &&& b.status@ == missing
        },
{
    if exists|i: int| 0 <= i < items.len() && item_id(items[i]) == saved@ {
        let i = choose|i: int| 0 <= i < items.len() && item_id(items[i]) == saved@;
        lemma_first_with_id_found(items, saved@, i);
        let k = first_with_id(items, saved@)->0;
        assert(b.sidebar.list.items@.len() == b.sidebar.list.items.len());
        assert((k as usize) as int == k);
        assert(b.sidebar.list.selected == Some(k as usize));
        assert(selected_of(b.sidebar) == Some(items[k]));
    } else {
        if first_with_id(items, saved@) is Some {
            let k = first_with_id(items, saved@)->0;
            assert(0 <= k < items.len() && item_id(items[k]) == saved@);
        }
    }
}

/// The navigator after jumping from a link to the workspace: unless it is the
/// one selected on the workspaces screen (`Already viewing this workspace`),
/// the workspaces screen shows with nothing entered and the workspace
/// selected (see `jumped`).
pub open spec fn workspace_jump(a: Navigator, b: Navigator, workspace_id: Seq<char>) -> bool {
    if a.screen == Screen::Workspaces && selected_workspace_id(a.sidebar)
        == Some(workspace_id) {
        &&& b == (Navigator { status: b.status, ..a })
        &&& b.status@ == "Already viewing this workspace"@
    } else {
        let items = workspace_items(a.workspaces@);
        &&& b == (Navigator {
            screen: Screen::Workspaces,
            current_workspace_id: b.current_workspace_id,
            current_space_id: None,
            current_folder_id: None,
            current_list_id: None,
            sidebar: b.sidebar,
            status: b.status,
            ..a
        })
        &&& b.current_workspace_id == if first_with_id(items, workspace_id) is Some {
            Some(b.current_workspace_id->0)
        } else {
            None::<String>
        }
        &&& (b.current_workspace_id matches Some(w) ==> w@ == workspace_id)
        &&& jumped(
            a.sidebar,
            b.sidebar,
            items,
            workspace_id,
            "workspace"@,
            "Workspace not found in current workspace list"@,
            b.status@,
        )
    }
}

/// The navigator after jumping from a link to a space of a workspace: the
/// spaces screen shows with the space selected (see `jumped`); when the space
/// is not among those loaded, the spaces of the workspace are to be loaded
/// (`req`).
pub open spec fn space_jump(a: Navigator, b: Navigator, workspace_id: Seq<char>, space_id: Seq<char>, req: Option<LoadRequest>) -> bool {
    ({
        let items = space_items(a.spaces@);
        let found = first_with_id(items, space_id) is Some;
        &&& b == (Navigator {
            screen: Screen::Spaces,
            current_workspace_id: b.current_workspace_id,
            current_space_id: b.current_space_id,
            current_folder_id: None,
            current_list_id: None,
            sidebar: b.sidebar,
            status: b.status,
            ..a
        })
        &&& b.current_workspace_id matches Some(w) && w@ == workspace_id
        &&& if found {
            &&& b.current_space_id matches Some(s) && s@ == space_id
            &&& req is None
            &&& jumped(a.sidebar, b.sidebar, items, space_id, "space"@, ""@, b.status@)
        } else {
            &&& b.current_space_id is None
            &&& req matches Some(LoadRequest::Spaces(w)) && w@ == workspace_id
            &&& b.status@ == "Loading spaces..."@
            &&& b.sidebar.list.items@ == a.sidebar.list.items@
            &&& b.sidebar.visible == a.sidebar.visible
            &&& b.sidebar.list.selected == first_selected(a.sidebar)
        }
    })
}

/// The navigator after jumping from a link to a folder: the folders screen
/// shows with the folder selected (see `jumped`).
pub open spec fn folder_jump(a: Navigator, b: Navigator, workspace_id: Seq<char>, folder_id: Seq<char>) -> bool {
    ({
        let items = folder_items(a.folders@);
        &&& b == (Navigator {
            screen: Screen::Folders,
            current_workspace_id: b.current_workspace_id,
            current_space_id: None,
            current_folder_id: b.current_folder_id,
            current_list_id: None,
            sidebar: b.sidebar,
            status: b.status,
            ..a
        })
        &&& b.current_workspace_id matches Some(w) && w@ == workspace_id
        &&& if first_with_id(items, folder_id) is Some {
            b.current_folder_id matches Some(f) && f@ == folder_id
        } else {
            b.current_folder_id is None
        }
        &&& jumped(
            a.sidebar,
            b.sidebar,
            items,
            folder_id,
            "folder"@,
            "Folder not found in current folder list"@,
            b.status@,
        )
    })
}

/// The navigator after jumping from a link to a list: the lists screen shows
/// with the list selected (see `jumped`).
pub open spec fn list_jump(a: Navigator, b: Navigator, workspace_id: Seq<char>, list_id: Seq<char>) -> bool {
    ({
        let items = list_items(a.lists@);
        &&& b == (Navigator {
            screen: Screen::Lists,
            current_workspace_id: b.current_workspace_id,
            current_space_id: None,
            current_folder_id: None,
            current_list_id: b.current_list_id,
            sidebar: b.sidebar,
            status: b.status,
            ..a
        })
        &&& b.current_workspace_id matches Some(w) && w@ == workspace_id
        &&& if first_with_id(items, list_id) is Some {
            b.current_list_id matches Some(l) && l@ == list_id
        } else {
            b.current_list_id is None
        }
        &&& jumped(
            a.sidebar,
            b.sidebar,
            items,
            list_id,
            "list"@,
            "List not found in current list"@,
            b.status@,
        )
    })
}

/// What a link can be copied for: the entry, task, comment or document that
/// the screen shows, with the ids its address is made of.
#[derive(Debug, Clone)]
pub enum LinkTarget {
    Workspace { workspace_id: String },
    Space { workspace_id: String, space_id: String },
    Folder { workspace_id: String, folder_id: String },
    List { workspace_id: String, list_id: String },
    Task { task_id: String },
    Comment { task_id: String, comment_id: String },
    Document { doc_id: String },
}

/// The sidebar entry under the selection, if any.
pub open spec fn selected_entry(s: SidebarState) -> Option<SidebarItem> {
    match s.list.selected {
        Some(i) => if i < s.list.items@.len() {
            Some(s.list.items@[i as int])
        } else {
            None
        },
        None => None,
    }
}

/// The answer for a level of the hierarchy below the workspaces: the
/// selected entry under the open workspace, or why there is none.
pub open spec fn entry_link(
    entry: Option<SidebarItem>,
    workspace: Option<String>,
    r: Result<LinkTarget, String>,
    none_selected: Seq<char>,
    level: spec_fn(Seq<char>, Seq<char>, LinkTarget) -> bool,
) -> bool {
    match entry {
        Some(item) => match workspace {
            Some(w) => r matches Ok(t) && level(w@, item_id(item), t),
            None => r matches Err(m) && m@ == "Missing workspace context"@,
        },
        None => r matches Err(m) && m@ == none_selected,
    }
}

impl Navigator {
    /// What `u` copies a link to on the current screen: on the hierarchy
    /// screens the selected entry (below the workspaces, under the open
    /// workspace), on the tasks screen the selected task, in the task detail
    /// the comment under the cursor when the comments have the focus and
    /// otherwise the task, on the document screen the first document. When
    /// there is nothing to link to, the message that says so.
    pub fn link_target(
        &self,
        list: &GroupedTaskList,
        detail: &Option<Task>,
        panel: &CommentPanel,
        document_id: &Option<String>,
    ) -> (r: Result<LinkTarget, String>)
        ensures
            match self.screen {
                Screen::Auth => r matches Err(m) && m@ == "URL copy not available on auth screen"@,
                Screen::Workspaces => match selected_entry(self.sidebar) {
                    Some(item) => r matches Ok(LinkTarget::Workspace { workspace_id })
                        && workspace_id@ == item_id(item),
                    None => r matches Err(m) && m@ == "No workspace selected"@,
                },
                Screen::Spaces => entry_link(
                    selected_entry(self.sidebar),
                    self.current_workspace_id,
                    r,
                    "No space selected"@,
                    |w: Seq<char>, e: Seq<char>, t: LinkTarget|
                        t matches LinkTarget::Space { workspace_id, space_id } && workspace_id@ == w
                            && space_id@ == e,
                ),
                Screen::Folders => entry_link(
                    selected_entry(self.sidebar),
                    self.current_workspace_id,
                    r,
                    "No folder selected"@,
                    |w: Seq<char>, e: Seq<char>, t: LinkTarget|
                        t matches LinkTarget::Folder { workspace_id, folder_id } && workspace_id@ == w
                            && folder_id@ == e,
                ),
                Screen::Lists => entry_link(
                    selected_entry(self.sidebar),
                    self.current_workspace_id,
                    r,
                    "No list selected"@,
                    |w: Seq<char>, e: Seq<char>, t: LinkTarget|
                        t matches LinkTarget::List { workspace_id, list_id } && workspace_id@ == w
                            && list_id@ == e,
                ),
                Screen::Tasks => match selected_task_id(list.rows@, list.selected) {
                    Some(id) => r matches Ok(LinkTarget::Task { task_id }) && task_id@ == id,
                    None => r matches Err(m) && m@ == "No task selected"@,
                },
                Screen::TaskDetail => match *detail {
                    Some(t) => if panel.focus && panel.selected_index < panel.comments@.len() {
                        r matches Ok(LinkTarget::Comment { task_id, comment_id }) && task_id@
                            == t.id@ && comment_id@ == panel.comments@[panel.selected_index as int].id@
                    } else {
                        r matches Ok(LinkTarget::Task { task_id }) && task_id@ == t.id@
                    },
                    None => r matches Err(m) && m@ == "No task selected"@,
                },
                Screen::Document => match *document_id {
                    Some(d) => r matches Ok(LinkTarget::Document { doc_id }) && doc_id@ == d@,
                    None => r matches Err(m) && m@ == "No document selected"@,
                },
            },
    {
        match self.screen {
            Screen::Auth => Err(owned("URL copy not available on auth screen")),
            Screen::Workspaces => match self.sidebar.selected_item() {
                Some(item) => Ok(LinkTarget::Workspace { workspace_id: owned(item.id()) }),
                None => Err(owned("No workspace selected")),
            },
            Screen::Spaces | Screen::Folders | Screen::Lists => {
                let none_selected = match self.screen {
                    Screen::Spaces => "No space selected",
                    Screen::Folders => "No folder selected",
                    _ => "No list selected",
                };
                match self.sidebar.selected_item() {
                    Some(item) => match &self.current_workspace_id {
                        Some(w) => {
                            let workspace_id = w.clone();
                            let id = owned(item.id());
                            match self.screen {
                                Screen::Spaces => Ok(LinkTarget::Space { workspace_id, space_id: id }),
                                Screen::Folders => Ok(
                                    LinkTarget::Folder { workspace_id, folder_id: id },
                                ),
                                _ => Ok(LinkTarget::List { workspace_id, list_id: id }),
                            }
                        },
                        None => Err(owned("Missing workspace context")),
                    },
                    None => Err(owned(none_selected)),
                }
            },
            Screen::Tasks => match list.selected_task() {
                Some(t) => Ok(LinkTarget::Task { task_id: t.id.clone() }),
                None => Err(owned("No task selected")),
            },
            Screen::TaskDetail => match detail {
                Some(t) => {
                    if panel.focus && panel.selected_index < panel.comments.len() {
                        Ok(
                            LinkTarget::Comment {
                                task_id: t.id.clone(),
                                comment_id: panel.comments[panel.selected_index].id.clone(),
                            },
                        )
                    } else {
                        Ok(LinkTarget::Task { task_id: t.id.clone() })
                    }
                },
                None => Err(owned("No task selected")),
            },
            Screen::Document => match document_id {
                Some(d) => Ok(LinkTarget::Document { doc_id: d.clone() }),
                None => Err(owned("No document selected")),
            },
        }
    }
}

/// What following a link leaves to do.
#[derive(Debug, Clone)]
pub enum LinkStep {
    /// Nothing: the navigation is done (or was refused, see the status).
    Done,
    /// The space is not among those loaded: they are to be loaded.
    Load(LoadRequest),
    /// The task is to be fetched, to open it.
    FetchTask { task_id: String },
    /// The task of the comment is to be fetched, to open it at the comment.
    FetchComment { task_id: String, comment_id: String },
    /// The document is to be looked up, to open it.
    FetchDocument { doc_id: String },
}

/// Without a signed-in client a link to a task, a comment or a document is
/// refused (`Not authenticated`), and nothing else changes.
pub open spec fn refused_unauthenticated(a: Navigator, b: Navigator, step: LinkStep) -> bool {
    &&& b == (Navigator { status: b.status, ..a })
    &&& b.status@ == "Not authenticated"@
    &&& step is Done
}

impl Navigator {
    /// Follows a link: to a workspace, space, folder or list it jumps there
    /// (see `workspace_jump`, `space_jump`, `folder_jump` and `list_jump`);
    /// to a task, a comment or a document it asks for it to be fetched, when
    /// there is a signed-in client.
    pub fn follow_link(&mut self, target: LinkTarget, authenticated: bool) -> (step: LinkStep)
        ensures
            match target {
                LinkTarget::Workspace { workspace_id } => workspace_jump(
                    *old(self),
                    *final(self),
                    workspace_id@,
                ) && step is Done,
                LinkTarget::Space { workspace_id, space_id } => {
                    &&& step is Done || step is Load
                    &&& space_jump(
                        *old(self),
                        *final(self),
                        workspace_id@,
                        space_id@,
                        match step {
                            LinkStep::Load(r) => Some(r),
                            _ => None,
                        },
                    )
                },
                LinkTarget::Folder { workspace_id, folder_id } => folder_jump(
                    *old(self),
                    *final(self),
                    workspace_id@,
                    folder_id@,
                ) && step is Done,
                LinkTarget::List { workspace_id, list_id } => list_jump(
                    *old(self),
                    *final(self),
                    workspace_id@,
                    list_id@,
                ) && step is Done,
                LinkTarget::Task { task_id } => if authenticated {
                    *final(self) == *old(self) && step == (LinkStep::FetchTask { task_id })
                } else {
                    refused_unauthenticated(*old(self), *final(self), step)
                },
                LinkTarget::Comment { task_id, comment_id } => if authenticated {
                    *final(self) == *old(self) && step == (LinkStep::FetchComment {
                        task_id,
                        comment_id,
                    })
                } else {
                    refused_unauthenticated(*old(self), *final(self), step)
                },
                LinkTarget::Document { doc_id } => if authenticated {
                    *final(self) == *old(self) && step == (LinkStep::FetchDocument { doc_id })
                } else {
                    refused_unauthenticated(*old(self), *final(self), step)
                },
            },
    {
        match target {
            LinkTarget::Workspace { workspace_id } => {
                self.navigate_to_workspace(workspace_id.as_str());
                LinkStep::Done
            },
            LinkTarget::Space { workspace_id, space_id } => {
                match self.navigate_to_space(workspace_id.as_str(), space_id.as_str()) {
                    Some(r) => LinkStep::Load(r),
                    None => LinkStep::Done,
                }
            },
            LinkTarget::Folder { workspace_id, folder_id } => {
                self.navigate_to_folder(workspace_id.as_str(), folder_id.as_str());
                LinkStep::Done
            },
            LinkTarget::List { workspace_id, list_id } => {
                self.navigate_to_list(workspace_id.as_str(), list_id.as_str());
                LinkStep::Done
            },
            LinkTarget::Task { task_id } => {
                if authenticated {
                    LinkStep::FetchTask { task_id }
                } else {
                    self.status = owned("Not authenticated");
                    LinkStep::Done
                }
            },
            LinkTarget::Comment { task_id, comment_id } => {
                if authenticated {
                    LinkStep::FetchComment { task_id, comment_id }
                } else {
                    self.status = owned("Not authenticated");
                    LinkStep::Done
                }
            },
            LinkTarget::Document { doc_id } => {
                if authenticated {
                    LinkStep::FetchDocument { doc_id }
                } else {
                    self.status = owned("Not authenticated");
                    LinkStep::Done
                }
            },
        }
    }
}

} // verus!
