//! The small input forms of the task detail screen: the task-creation form,
//! the assignee picker and the status picker.
use vstd::prelude::*;

use crate::models::task::TaskStatus;
use crate::models::user::User;
use crate::text::{
    insert_at_byte, is_byte_boundary, owned, pop_char, push_char, push_str, remove_at_byte,
    str_byte_len, str_trim, trimmed, utf8_len,
};
use crate::tui::widgets::auth::{inserted_at, removed_at};
use crate::tui::app::TaskCreationField;
use crate::tui::input::{has_control, KeyCode, KeyEvent};

verus! {

/// The task-creation form.
#[derive(Debug, Clone)]
pub struct TaskForm {
    pub name: String,
    pub description: String,
    pub focus: TaskCreationField,
}

/// What the caller has to do after a key in the task-creation form.
#[derive(Debug, Clone, PartialEq)]
pub enum FormAction {
    NoOp,
    /// Leave the form for the task list.
    Cancel,
    /// Create the task in the given list.
    CreateTask { list_id: String },
}

/// The other field.
pub open spec fn other_field(f: TaskCreationField) -> TaskCreationField {
    match f {
        TaskCreationField::Name => TaskCreationField::Description,
        TaskCreationField::Description => TaskCreationField::Name,
    }
}

/// The status shown when a field gets the focus.
pub open spec fn field_message(f: TaskCreationField) -> Seq<char> {
    match f {
        TaskCreationField::Name => "Focus: Task Name"@,
        TaskCreationField::Description => "Focus: Description"@,
    }
}

/// The text of a field after typing or erasing in it.
pub open spec fn edit_text(t: Seq<char>, code: KeyCode) -> Seq<char> {
    match code {
        KeyCode::Char(c) => t.push(c),
        KeyCode::Backspace => if t.len() > 0 {
            t.drop_last()
        } else {
            t
        },
        _ => t,
    }
}

/// A key in the task-creation form: Tab moves the focus, Esc cancels (the
/// fields are emptied), Enter moves from the name to the description,
/// Control+S creates the task when its name is not blank and a list is open,
/// other characters are typed into the focused field and Backspace erases.
pub open spec fn form_post(
    a: TaskForm,
    b: TaskForm,
    key: KeyEvent,
    list_id: Option<String>,
    sa: Seq<char>,
    sb: Seq<char>,
    act: FormAction,
) -> bool {
    let k = key.code;
    if k == KeyCode::Tab {
        &&& b == TaskForm { focus: other_field(a.focus), ..a }
        &&& sb == field_message(other_field(a.focus))
        &&& act == FormAction::NoOp
    } else if k == KeyCode::Esc {
        &&& b == TaskForm { name: b.name, description: b.description, ..a }
        &&& b.name@.len() == 0
        &&& b.description@.len() == 0
        &&& sb == "Task creation cancelled"@
        &&& act == FormAction::Cancel
    } else if k == KeyCode::Enter {
        if a.focus == TaskCreationField::Name {
            &&& b == TaskForm { focus: TaskCreationField::Description, ..a }
            &&& sb == "Focus: Description"@
            &&& act == FormAction::NoOp
        } else {
            b == a && sb == sa && act == FormAction::NoOp
        }
    } else if k == KeyCode::Char('s') && has_control(key) {
        &&& b == a
        &&& if trimmed(a.name@).len() == 0 {
            sb == "Task name is required"@ && act == FormAction::NoOp
        } else {
            sb == sa && act == match list_id {
                Some(l) => FormAction::CreateTask { list_id: l },
                None => FormAction::NoOp,
            }
        }
    } else if k is Char || k == KeyCode::Backspace {
        &&& sb == sa
        &&& act == FormAction::NoOp
        &&& if a.focus == TaskCreationField::Name {
            b == TaskForm { name: b.name, ..a } && b.name@ == edit_text(a.name@, k)
        } else {
            b == TaskForm { description: b.description, ..a } && b.description@ == edit_text(
                a.description@,
                k,
            )
        }
    } else {
        b == a && sb == sa && act == FormAction::NoOp
    }
}

/// An empty string.
fn empty_string() -> (s: String)
    ensures
        s@.len() == 0,
{
    let s = owned("");
    proof {
        reveal_strlit("");
    }
    s
}

/// Types or erases in a field.
fn edit_field(t: &mut String, code: KeyCode)
    requires
        code is Char || code == KeyCode::Backspace,
    ensures
        final(t)@ == edit_text(old(t)@, code),
{
    match code {
        KeyCode::Char(c) => push_char(t, c),
        _ => {
            pop_char(t);
        },
    }
}

impl TaskForm {
    /// Empty fields, the name focused.
    pub fn new() -> (f: Self)
        ensures
            f.name@.len() == 0,
            f.description@.len() == 0,
            f.focus == TaskCreationField::Name,
    {
        TaskForm {
            name: empty_string(),
            description: empty_string(),
            focus: TaskCreationField::Name,
        }
    }

    /// Handles a key in the form; `list_id` is the open list. Returns what
    /// the caller has to do.
    pub fn handle_task_creation_input(
        &mut self,
        key: KeyEvent,
        list_id: Option<&String>,
        status: &mut String,
    ) -> (act: FormAction)
        ensures
            form_post(
                *old(self),
                *final(self),
                key,
                match list_id {
                    Some(l) => Some(*l),
                    None => None,
                },
                old(status)@,
                final(status)@,
                act,
            ),
    {
        let k = key.code;
        if k == KeyCode::Tab {
            self.focus = match self.focus {
                TaskCreationField::Name => TaskCreationField::Description,
                TaskCreationField::Description => TaskCreationField::Name,
            };
            *status = match self.focus {
                TaskCreationField::Name => owned("Focus: Task Name"),
                TaskCreationField::Description => owned("Focus: Description"),
            };
            FormAction::NoOp
        } else if k == KeyCode::Esc {
            self.name = empty_string();
            self.description = empty_string();
            *status = owned("Task creation cancelled");
            FormAction::Cancel
        } else if k == KeyCode::Enter {
            if self.focus == TaskCreationField::Name {
                self.focus = TaskCreationField::Description;
                *status = owned("Focus: Description");
            }
            FormAction::NoOp
        } else if k == KeyCode::Char('s') && key.control() {
            if str_trim(self.name.as_str()).is_empty() {
                *status = owned("Task name is required");
                return FormAction::NoOp;
            }
            match list_id {
                Some(l) => FormAction::CreateTask { list_id: l.clone() },
                None => FormAction::NoOp,
            }
        } else if k == KeyCode::Backspace || match k {
            KeyCode::Char(_) => true,
            _ => false,
        } {
            if self.focus == TaskCreationField::Name {
                edit_field(&mut self.name, k);
            } else {
                edit_field(&mut self.description, k);
            }
            FormAction::NoOp
        } else {
            FormAction::NoOp
        }
    }
}

/// The assignee picker: the members of the list, a cursor, and the ids
/// picked, each at most once.
#[derive(Debug, Clone)]
pub struct AssigneePicker {
    pub members: Vec<User>,
    pub selected: Vec<i64>,
    /// The ids assigned when the picker was opened.
    pub original: Vec<i64>,
    pub cursor: usize,
}

/// What the caller has to do after a key in a picker.
#[derive(Debug, Clone, Copy, PartialEq, Eq, Structural)]
pub enum PickerAction {
    NoOp,
    /// Send the choice.
    Save,
    /// Close the picker without a change.
    Cancel,
}

/// The ids picked, as a set.
pub open spec fn id_set(v: Seq<i64>) -> Set<i64> {
    v.to_set()
}

/// The last index of a list of `len` entries (0 when it is empty).
pub open spec fn last_index(len: nat) -> int {
    if len == 0 {
        0
    } else {
        len - 1
    }
}

/// A key in the assignee picker: j/k move the cursor within the members,
/// Space picks or unpicks the member under it, Control+S saves, Esc
/// cancels.
pub open spec fn picker_post(
    a: AssigneePicker,
    b: AssigneePicker,
    key: KeyEvent,
    sa: Seq<char>,
    sb: Seq<char>,
    act: PickerAction,
) -> bool {
    let k = key.code;
    let n = a.members@.len();
    if k == KeyCode::Char('j') {
        &&& b == AssigneePicker {
            cursor: if a.cursor < last_index(n) {
                (a.cursor + 1) as usize
            } else {
                a.cursor
            },
            ..a
        }
        &&& sb == sa
        &&& act == PickerAction::NoOp
    } else if k == KeyCode::Char('k') {
        &&& b == AssigneePicker {
            cursor: if a.cursor > 0 {
                (a.cursor - 1) as usize
            } else {
                a.cursor
            },
            ..a
        }
        &&& sb == sa
        &&& act == PickerAction::NoOp
    } else if k == KeyCode::Char(' ') {
        &&& b == AssigneePicker { selected: b.selected, ..a }
        &&& b.selected@.no_duplicates()
        &&& id_set(b.selected@) == if a.cursor < n {
            let id = a.members@[a.cursor as int].id;
            if id_set(a.selected@).contains(id) {
                id_set(a.selected@).remove(id)
            } else {
                id_set(a.selected@).insert(id)
            }
        } else {
            id_set(a.selected@)
        }
        &&& sb == sa
        &&& act == PickerAction::NoOp
    } else if k == KeyCode::Char('s') && has_control(key) {
        b == a && sb == sa && act == PickerAction::Save
    } else if k == KeyCode::Esc {
        b == a && sb == "Assignment cancelled"@ && act == PickerAction::Cancel
    } else {
        b == a && sb == sa && act == PickerAction::NoOp
    }
}

/// Removes the first occurrence of `id`.
fn remove_id(v: &Vec<i64>, id: i64) -> (r: Vec<i64>)
    requires
        v@.no_duplicates(),
    ensures
        r@.no_duplicates(),
        r@.to_set() == v@.to_set().remove(id),
{
    broadcast use vstd::seq_lib::group_seq_properties;

    let mut r: Vec<i64> = Vec::new();
    let mut i: usize = 0;
    while i < v.len()
        invariant
            i <= v@.len(),
            v@.no_duplicates(),
            r@.no_duplicates(),
            forall|y: i64|
                r@.contains(y) <==> (y != id && exists|j: int| 0 <= j < i && v@[j] == y),
        decreases v@.len() - i,
    {
        let x = v[i];
        proof {
            assert forall|y: i64| !(r@.contains(y) && y == x) by {
                if r@.contains(y) && y == x {
                    let j = choose|j: int| 0 <= j < i && v@[j] == y;
                    assert(v@[j] == v@[i as int]);
                }
            }
        }
        let ghost r0 = r@;
        if x != id {
            r.push(x);
            proof {
                assert forall|a: int, b: int| 0 <= a < b < r@.len() implies r@[a] != r@[b] by {
                    if b == r0.len() {
                        assert(r0[a] == r@[a]);
                        assert(r0.contains(r0[a]));
                    } else {
                        assert(r0[a] != r0[b]);
                    }
                }
            }
        }
        proof {
            assert forall|y: i64|
                r@.contains(y) <==> (r0.contains(y) || (x != id && y == x)) by {
                if r@.contains(y) {
                    let k = choose|k: int| 0 <= k < r@.len() && r@[k] == y;
                    if k < r0.len() {
                        assert(r0[k] == y);
                    }
                }
                if r0.contains(y) {
                    let k = choose|k: int| 0 <= k < r0.len() && r0[k] == y;
                    assert(r@[k] == y);
                }
                if x != id && y == x {
                    assert(r@[r0.len() as int] == x);
                }
            }
            assert forall|y: i64|
                r@.contains(y) <==> (y != id && exists|j: int| 0 <= j < i + 1 && v@[j] == y) by {
                if y != id && exists|j: int| 0 <= j < i + 1 && v@[j] == y {
                    let j = choose|j: int| 0 <= j < i + 1 && v@[j] == y;
                    if j < i {
                        assert(exists|j2: int| 0 <= j2 < i && v@[j2] == y);
                    }
                }
                if r0.contains(y) {
                    let j = choose|j: int| 0 <= j < i && v@[j] == y;
                    assert(0 <= j < i + 1 && v@[j] == y);
                }
                if x != id && y == x {
                    assert(v@[i as int] == y);
                }
            }
        }
        i = i + 1;
    }
    proof {
        assert forall|y: i64| r@.to_set().contains(y) == v@.to_set().remove(id).contains(y) by {
            if v@.contains(y) && y != id {
                let j = choose|j: int| 0 <= j < v@.len() && v@[j] == y;
                assert(exists|j: int| 0 <= j < v@.len() && v@[j] == y);
            }
        }
        assert(r@.to_set() =~= v@.to_set().remove(id));
    }
    r
}

impl AssigneePicker {
    /// Handles a key in the picker.
    pub fn handle_assignee_picker_input(&mut self, key: KeyEvent, status: &mut String) -> (act:
        PickerAction)
        requires
            old(self).selected@.no_duplicates(),
        ensures
            picker_post(*old(self), *final(self), key, old(status)@, final(status)@, act),
    {
        broadcast use vstd::seq_lib::group_seq_properties;

        let k = key.code;
        let n = self.members.len();
        if k == KeyCode::Char('j') {
            let last = if n == 0 {
                0
            } else {
                n - 1
            };
            if self.cursor < last {
                self.cursor = self.cursor + 1;
            }
            PickerAction::NoOp
        } else if k == KeyCode::Char('k') {
            if self.cursor > 0 {
                self.cursor = self.cursor - 1;
            }
            PickerAction::NoOp
        } else if k == KeyCode::Char(' ') {
            if self.cursor < n {
                let id = self.members[self.cursor].id;
                let mut present = false;
                let mut i: usize = 0;
                while i < self.selected.len()
                    invariant
                        i <= self.selected@.len(),
                        present == exists|j: int| 0 <= j < i && self.selected@[j] == id,
                    decreases self.selected@.len() - i,
                {
                    if self.selected[i] == id {
                        present = true;
                    }
                    proof {
                        if present {
                            let j = choose|j: int| 0 <= j < i + 1 && self.selected@[j] == id;
                            assert(0 <= j < i + 1 && self.selected@[j] == id);
                        }
                    }
                    i = i + 1;
                }
                assert(present == self.selected@.contains(id));
                if present {
                    self.selected = remove_id(&self.selected, id);
                } else {
                    let ghost before = self.selected@;
                    self.selected.push(id);
                    assert(self.selected@.to_set() =~= before.to_set().insert(id));
                }
            }
            PickerAction::NoOp
        } else if k == KeyCode::Char('s') && key.control() {
            PickerAction::Save
        } else if k == KeyCode::Esc {
            *status = owned("Assignment cancelled");
            PickerAction::Cancel
        } else {
            PickerAction::NoOp
        }
    }
}

/// The status picker: the statuses offered and a cursor.
#[derive(Debug, Clone)]
pub struct StatusPicker {
    pub statuses: Vec<TaskStatus>,
    pub cursor: usize,
}

/// A key in the status picker: j/k (or the arrows) move the cursor within
/// the statuses, Enter saves the status under it, Esc cancels.
pub open spec fn status_picker_post(
    a: StatusPicker,
    b: StatusPicker,
    key: KeyEvent,
    sa: Seq<char>,
    sb: Seq<char>,
    act: PickerAction,
) -> bool {
    let k = key.code;
    if k == KeyCode::Char('j') || k == KeyCode::Down {
        &&& b == StatusPicker {
            cursor: if a.cursor < last_index(a.statuses@.len()) {
                (a.cursor + 1) as usize
            } else {
                a.cursor
            },
            ..a
        }
        &&& sb == sa
        &&& act == PickerAction::NoOp
    } else if k == KeyCode::Char('k') || k == KeyCode::Up {
        &&& b == StatusPicker {
            cursor: if a.cursor > 0 {
                (a.cursor - 1) as usize
            } else {
                a.cursor
            },
            ..a
        }
        &&& sb == sa
        &&& act == PickerAction::NoOp
    } else if k == KeyCode::Enter {
        b == a && sb == sa && act == PickerAction::Save
    } else if k == KeyCode::Esc {
        b == a && sb == "Status change cancelled"@ && act == PickerAction::Cancel
    } else {
        b == a && sb == sa && act == PickerAction::NoOp
    }
}

impl StatusPicker {
    /// Handles a key in the picker.
    pub fn handle_status_picker_input(&mut self, key: KeyEvent, status: &mut String) -> (act:
        PickerAction)
        ensures
            status_picker_post(*old(self), *final(self), key, old(status)@, final(status)@, act),
    {
        let k = key.code;
        let n = self.statuses.len();
        if k == KeyCode::Char('j') || k == KeyCode::Down {
            let last = if n == 0 {
                0
            } else {
                n - 1
            };
            if self.cursor < last {
                self.cursor = self.cursor + 1;
            }
            PickerAction::NoOp
        } else if k == KeyCode::Char('k') || k == KeyCode::Up {
            if self.cursor > 0 {
                self.cursor = self.cursor - 1;
            }
            PickerAction::NoOp
        } else if k == KeyCode::Enter {
            PickerAction::Save
        } else if k == KeyCode::Esc {
            *status = owned("Status change cancelled");
            PickerAction::Cancel
        } else {
            PickerAction::NoOp
        }
    }
}

/// The dialog in which a ClickUp URL is typed to jump to what it names.
#[derive(Debug, Clone)]
pub struct UrlInput {
    pub open: bool,
    pub text: String,
    pub error: Option<String>,
    /// Cursor position, in bytes.
    pub cursor: usize,
}

/// What the caller has to do after a key in the URL dialog.
#[derive(Debug, Clone, PartialEq)]
pub enum UrlAction {
    NoOp,
    /// Go to what the URL names (the dialog is closed).
    Submit(String),
    /// Paste the clipboard at the cursor.
    Paste,
}

/// Whether the cursor may be used to insert and, for erasing, remove.
pub open spec fn url_key_ok(u: UrlInput, key: KeyEvent) -> bool {
    let k = key.code;
    &&& (k is Char && !(k == KeyCode::Char('v') && has_control(key))) ==> is_byte_boundary(
        u.text@,
        u.cursor as int,
    ) && u.cursor < usize::MAX
    &&& (k == KeyCode::Backspace && u.cursor > 0) ==> is_byte_boundary(
        u.text@,
        u.cursor - 1,
    ) && u.cursor - 1 < utf8_len(u.text@)
}

/// A key in the URL dialog: Esc closes it, Enter submits a URL that is not
/// blank (a blank one sets an error), Control+V pastes, a character is
/// inserted at the cursor, Backspace erases before it, and the arrows move
/// it within the text.
pub open spec fn url_post(a: UrlInput, b: UrlInput, key: KeyEvent, act: UrlAction) -> bool {
    let k = key.code;
    if k == KeyCode::Esc {
        !b.open && b.text@.len() == 0 && b.error is None && b.cursor == 0 && act == UrlAction::NoOp
    } else if k == KeyCode::Enter {
        if trimmed(a.text@).len() == 0 {
            &&& b == UrlInput { error: b.error, ..a }
            &&& b.error matches Some(e) && e@ == "Please enter a URL"@
            &&& act == UrlAction::NoOp
        } else {
            &&& !b.open
            &&& b.text@.len() == 0
            &&& b.error is None
            &&& b.cursor == 0
            &&& act == UrlAction::Submit(a.text)
        }
    } else if k == KeyCode::Char('v') && has_control(key) {
        b == a && act == UrlAction::Paste
    } else if k is Char {
        &&& b.open == a.open
        &&& b.text@ == inserted_at(a.text@, a.cursor as int, k->0)
        &&& b.cursor == a.cursor + 1
        &&& b.error is None
        &&& act == UrlAction::NoOp
    } else if k == KeyCode::Backspace {
        if a.cursor > 0 {
            &&& b.open == a.open
            &&& b.text@ == removed_at(a.text@, a.cursor - 1)
            &&& b.cursor == a.cursor - 1
            &&& b.error is None
            &&& act == UrlAction::NoOp
        } else {
            b == a && act == UrlAction::NoOp
        }
    } else if k == KeyCode::Left {
        b == UrlInput {
            cursor: if a.cursor > 0 {
                (a.cursor - 1) as usize
            } else {
                a.cursor
            },
            ..a
        } && act == UrlAction::NoOp
    } else if k == KeyCode::Right {
        b == UrlInput {
            cursor: if a.cursor < utf8_len(a.text@) {
                (a.cursor + 1) as usize
            } else {
                a.cursor
            },
            ..a
        } && act == UrlAction::NoOp
    } else {
        b == a && act == UrlAction::NoOp
    }
}

impl UrlInput {
    /// A closed, empty dialog.
    pub fn new() -> (u: Self)
        ensures
            !u.open,
            u.text@.len() == 0,
            u.error is None,
            u.cursor == 0,
    {
        UrlInput { open: false, text: empty_string(), error: None, cursor: 0 }
    }

    /// Opens the dialog empty; without a signed-in user only a message is
    /// shown.
    pub fn open_dialog(&mut self, authenticated: bool, status: &mut String)
        ensures
            !authenticated ==> *final(self) == *old(self) && final(status)@
                == "Please authenticate first"@,
            authenticated ==> final(self).open && final(self).text@.len() == 0
                && final(self).error is None && final(self).cursor == 0 && final(status)@
                == old(status)@,
    {
        if !authenticated {
            *status = owned("Please authenticate first");
            return;
        }
        self.open = true;
        self.text = empty_string();
        self.error = None;
        self.cursor = 0;
    }

    /// Closes and empties the dialog.
    pub fn close(&mut self)
        ensures
            !final(self).open,
            final(self).text@.len() == 0,
            final(self).error is None,
            final(self).cursor == 0,
    {
        self.open = false;
        self.text = empty_string();
        self.error = None;
        self.cursor = 0;
    }

    /// Opens the dialog again on a URL that was not understood, with the
    /// cursor at its end and the reason shown.
    pub fn reject(&mut self, url: String, reason: &str)
        ensures
            final(self).open,
            final(self).text == url,
            final(self).cursor == utf8_len(url@),
            final(self).error matches Some(e) && e@ == "Unrecognized ClickUp URL format: "@
                + reason@,
    {
        let n = str_byte_len(url.as_str());
        let mut e = owned("Unrecognized ClickUp URL format: ");
        push_str(&mut e, reason);
        self.open = true;
        self.text = url;
        self.error = Some(e);
        self.cursor = n;
    }

    /// Handles a key in the dialog (see `url_post`).
    pub fn handle_url_input(&mut self, key: KeyEvent) -> (act: UrlAction)
        requires
            url_key_ok(*old(self), key),
        ensures
            url_post(*old(self), *final(self), key, act),
    {
        let k = key.code;
        if k == KeyCode::Esc {
            self.close();
            UrlAction::NoOp
        } else if k == KeyCode::Enter {
            if str_trim(self.text.as_str()).is_empty() {
                self.error = Some(owned("Please enter a URL"));
                return UrlAction::NoOp;
            }
            let url = self.text.clone();
            self.close();
            UrlAction::Submit(url)
        } else if k == KeyCode::Char('v') && key.control() {
            UrlAction::Paste
        } else if k == KeyCode::Backspace {
            if self.cursor > 0 {
                self.text = remove_at_byte(&self.text, self.cursor - 1);
                self.cursor = self.cursor - 1;
                self.error = None;
            }
            UrlAction::NoOp
        } else if k == KeyCode::Left {
            if self.cursor > 0 {
                self.cursor = self.cursor - 1;
            }
            UrlAction::NoOp
        } else if k == KeyCode::Right {
            if self.cursor < str_byte_len(self.text.as_str()) {
                self.cursor = self.cursor + 1;
            }
            UrlAction::NoOp
        } else {
            match k {
                KeyCode::Char(c) => {
                    self.text = insert_at_byte(&self.text, self.cursor, c);
                    self.cursor = self.cursor + 1;
                    self.error = None;
                },
                _ => {},
            }
            UrlAction::NoOp
        }
    }
}

/// Pressing Space twice on the same member leaves the picked ids as they
/// were.
pub proof fn lemma_toggle_twice(
    a: AssigneePicker,
    b: AssigneePicker,
    c: AssigneePicker,
    space: KeyEvent,
    sa: Seq<char>,
    sb: Seq<char>,
    sc: Seq<char>,
    act1: PickerAction,
    act2: PickerAction,
)
    requires
        space.code == KeyCode::Char(' '),
        picker_post(a, b, space, sa, sb, act1),
        picker_post(b, c, space, sb, sc, act2),
    ensures
        id_set(c.selected@) == id_set(a.selected@),
        c.cursor == a.cursor,
        c.members == a.members,
{
    let sa_ = id_set(a.selected@);
    if a.cursor < a.members@.len() {
        let id = a.members@[a.cursor as int].id;
        if sa_.contains(id) {
            assert(sa_.remove(id).insert(id) =~= sa_);
        } else {
            assert(sa_.insert(id).remove(id) =~= sa_);
        }
    }
}

/// Typing a character into the focused field and erasing it gives back the
/// form as it was.
pub proof fn lemma_form_type_then_erase(
    a: TaskForm,
    b: TaskForm,
    c: TaskForm,
    typed: KeyEvent,
    backspace: KeyEvent,
    list_id: Option<String>,
    sa: Seq<char>,
    sb: Seq<char>,
    sc: Seq<char>,
    act1: FormAction,
    act2: FormAction,
)
    requires
        typed.code is Char,
        !(typed.code == KeyCode::Char('s') && has_control(typed)),
        backspace.code == KeyCode::Backspace,
        form_post(a, b, typed, list_id, sa, sb, act1),
        form_post(b, c, backspace, list_id, sb, sc, act2),
    ensures
        c.name@ == a.name@,
        c.description@ == a.description@,
        c.focus == a.focus,
        sc == sa,
{
    assert(a.name@.push(typed.code->0).drop_last() =~= a.name@);
    assert(a.description@.push(typed.code->0).drop_last() =~= a.description@);
}

} // verus!
