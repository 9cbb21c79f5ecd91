//! The paginated keyboard-shortcut help.
//!
//! Page 1 shows the shortcuts of the current context, page 2 the global
//! ones, and page 3 everything that is on neither.
use vstd::prelude::*;

use crate::text::{int_decimal, owned, pad_right, padded_right, push_str, u64_to_string};

verus! {

/// Number of help pages.
pub const TOTAL_PAGES: u8 = 3;

/// Which screen the help is opened from.
#[derive(Debug, Clone, Copy, PartialEq, Eq, Structural)]
pub enum HelpContext {
    Auth,
    Navigation,
    TaskList,
    TaskDetail,
    Comments,
    Document,
}

/// The name of page 1 in a context.
pub open spec fn page1_name_of(c: HelpContext) -> Seq<char> {
    match c {
        HelpContext::Auth => "Auth"@,
        HelpContext::Navigation => "Navigation"@,
        HelpContext::TaskList => "Task List"@,
        HelpContext::TaskDetail => "Task Detail"@,
        HelpContext::Comments => "Comments"@,
        HelpContext::Document => "Document"@,
    }
}

impl HelpContext {
    /// The name of page 1 in this context.
    pub fn page1_name(&self) -> (s: &'static str)
        ensures
            s@ == page1_name_of(*self),
    {
        match self {
            HelpContext::Auth => "Auth",
            HelpContext::Navigation => "Navigation",
            HelpContext::TaskList => "Task List",
            HelpContext::TaskDetail => "Task Detail",
            HelpContext::Comments => "Comments",
            HelpContext::Document => "Document",
        }
    }
}

/// Whether the help is open, and on which page (0-based).
#[derive(Debug, Clone)]
pub struct HelpState {
    pub visible: bool,
    pub page: u8,
}

/// The page after `p`, wrapping from the last to the first.
pub open spec fn next_page_of(p: int) -> int {
    (p + 1) % 3
}

/// The page before `p`, wrapping from the first to the last.
pub open spec fn prev_page_of(p: int) -> int {
    if p == 0 {
        2
    } else {
        p - 1
    }
}

impl Default for HelpState {
    fn default() -> (s: Self)
        ensures
            !s.visible,
            s.page == 0,
    {
        HelpState::new()
    }
}

impl HelpState {
    /// Closed, on page 1.
    pub fn new() -> (s: Self)
        ensures
            !s.visible,
            s.page == 0,
    {
        HelpState { visible: false, page: 0 }
    }

    /// Opens or closes the help; opening starts on page 1.
    pub fn toggle(&mut self)
        ensures
            final(self).visible == !old(self).visible,
            final(self).page == if final(self).visible {
                0
            } else {
                old(self).page
            },
    {
        self.visible = !self.visible;
        if self.visible {
            self.page = 0;
        }
    }

    /// Closes the help and goes back to page 1.
    pub fn close(&mut self)
        ensures
            !final(self).visible,
            final(self).page == 0,
    {
        self.visible = false;
        self.page = 0;
    }

    /// The next page, wrapping from the last to the first.
    pub fn next_page(&mut self)
        requires
            old(self).page < 255,
        ensures
            final(self).page == next_page_of(old(self).page as int),
            final(self).visible == old(self).visible,
    {
        self.page = (self.page + 1) % TOTAL_PAGES;
    }

    /// The previous page, wrapping from the first to the last.
    pub fn prev_page(&mut self)
        ensures
            final(self).page == prev_page_of(old(self).page as int),
            final(self).visible == old(self).visible,
    {
        if self.page == 0 {
            self.page = TOTAL_PAGES - 1;
        } else {
            self.page = self.page - 1;
        }
    }

    /// Back to page 1, keeping the visibility.
    pub fn reset(&mut self)
        ensures
            final(self).page == 0,
            final(self).visible == old(self).visible,
    {
        self.page = 0;
    }
}

/// Paging forward then back returns to the same page, and three steps
/// forward go around once.
pub proof fn lemma_paging(p: int)
    requires
        0 <= p < 3,
    ensures
        prev_page_of(next_page_of(p)) == p,
        next_page_of(prev_page_of(p)) == p,
        next_page_of(next_page_of(next_page_of(p))) == p,
        0 <= next_page_of(p) < 3,
        0 <= prev_page_of(p) < 3,
{
}

/// One line of help text.
#[derive(Debug, Clone)]
pub struct HelpLine {
    pub text: String,
    /// Section titles are bold.
    pub bold: bool,
}

/// A help line as plain values.
pub open spec fn line_view(l: HelpLine) -> (Seq<char>, bool) {
    (l.text@, l.bold)
}

/// The lines as plain values.
pub open spec fn lines_view(ls: Seq<HelpLine>) -> Seq<(Seq<char>, bool)> {
    ls.map_values(|l: HelpLine| line_view(l))
}

/// A shortcut line: two spaces, the key padded to 14 characters, `- `, the
/// description.
pub open spec fn item_line(key: Seq<char>, desc: Seq<char>) -> Seq<char> {
    "  "@ + pad_right(key, 14) + "- "@ + desc
}

/// A section: its bold title, then one line per shortcut.
pub open spec fn section_view(title: Seq<char>, items: Seq<(Seq<char>, Seq<char>)>) -> Seq<
    (Seq<char>, bool),
> {
    seq![(title, true)] + items.map_values(
        |p: (Seq<char>, Seq<char>)| (item_line(p.0, p.1), false),
    )
}

/// A section of the help.
#[derive(Debug, Clone, Copy, PartialEq, Eq, Structural)]
pub enum HelpSection {
    Navigation,
    Global,
    Actions,
    TaskList,
    TaskDetail,
    TaskCreation,
    Comments,
    Forms,
    Session,
}

/// The title of a section.
pub open spec fn section_title(s: HelpSection) -> Seq<char> {
    match s {
        HelpSection::Navigation => "Navigation"@,
        HelpSection::Global => "Global"@,
        HelpSection::Actions => "Actions"@,
        HelpSection::TaskList => "Task List"@,
        HelpSection::TaskDetail => "Task Detail"@,
        HelpSection::TaskCreation => "Task Creation"@,
        HelpSection::Comments => "Comments"@,
        HelpSection::Forms => "Forms"@,
        HelpSection::Session => "Session"@,
    }
}

/// The shortcuts of a section, as (key, description) pairs.
pub open spec fn section_items(s: HelpSection) -> Seq<(Seq<char>, Seq<char>)> {
    match s {
        HelpSection::Navigation => seq![
            ("j/k or ↑/↓"@, "Move selection"@),
            ("Enter"@, "Select/Open item"@),
            ("Esc"@, "Go back/Close"@),
            ("g u"@, "Navigate to URL"@),
        ],
        HelpSection::Global => seq![
            ("Ctrl+Q"@, "Quit (saves session)"@),
            ("Tab"@, "Toggle sidebar"@),
            ("?"@, "Show this help"@),
            ("u"@, "Copy element URL"@),
        ],
        HelpSection::Actions => seq![
            ("n"@, "Create new item"@),
            ("e"@, "Edit selected item"@),
            ("d"@, "Delete selected item"@),
        ],
        HelpSection::TaskList => seq![
            ("a"@, "Toggle Assigned to Me filter"@),
            ("n"@, "Create new task"@),
            ("s"@, "Open status picker"@),
            ("d"@, "Delete selected task"@),
        ],
        HelpSection::TaskDetail => seq![
            ("s"@, "Open status picker"@),
            ("A"@, "Open assignee picker"@),
            ("e"@, "Edit task"@),
            ("Tab"@, "Toggle comments focus"@),
            ("Esc"@, "Back to task list"@),
        ],
        HelpSection::TaskCreation => seq![
            ("Tab"@, "Switch between name/description"@),
            ("Ctrl+S"@, "Create task"@),
            ("Esc"@, "Cancel creation"@),
        ],
        HelpSection::Comments => seq![
            ("Tab"@, "Toggle focus (task/comments)"@),
            ("j/k"@, "Navigate comments"@),
            ("n"@, "New comment"@),
            ("e"@, "Edit selected comment"@),
            ("r"@, "Reply to thread (in thread view)"@),
            ("Enter"@, "View thread"@),
            ("Ctrl+S"@, "Save comment"@),
            ("Esc"@, "Cancel editing / Exit thread"@),
        ],
        HelpSection::Forms => seq![("Ctrl+S"@, "Save"@), ("Esc"@, "Cancel"@)],
        HelpSection::Session => seq![
            (""@, "Session auto-saves on exit"@),
            (""@, "Restores last view on startup"@),
        ],
    }
}

/// The lines of a section.
pub open spec fn section_lines(s: HelpSection) -> Seq<(Seq<char>, bool)> {
    section_view(section_title(s), section_items(s))
}

/// The sections one after the other, separated by a blank line.
pub open spec fn join_sections(secs: Seq<HelpSection>) -> Seq<(Seq<char>, bool)>
    decreases secs.len(),
{
    if secs.len() == 0 {
        Seq::empty()
    } else if secs.len() == 1 {
        section_lines(secs[0])
    } else {
        join_sections(secs.drop_last()) + seq![(Seq::<char>::empty(), false)] + section_lines(
            secs.last(),
        )
    }
}

/// The sections shown on a page (page 1 of the auth screen and of the
/// document viewer shows its own lines instead).
pub open spec fn page_sections(c: HelpContext, page: int) -> Seq<HelpSection> {
    if page == 0 {
        match c {
            HelpContext::Navigation => seq![HelpSection::Navigation],
            HelpContext::TaskList => seq![HelpSection::TaskList],
            HelpContext::TaskDetail => seq![HelpSection::TaskDetail],
            HelpContext::Comments => seq![HelpSection::Comments],
            _ => Seq::empty(),
        }
    } else if page == 1 {
        seq![
            HelpSection::Navigation,
            HelpSection::Global,
            HelpSection::Actions,
            HelpSection::Forms,
        ]
    } else {
        match c {
            HelpContext::TaskList => seq![
                HelpSection::TaskDetail,
                HelpSection::TaskCreation,
                HelpSection::Comments,
                HelpSection::Session,
            ],
            HelpContext::TaskDetail => seq![
                HelpSection::TaskList,
                HelpSection::TaskCreation,
                HelpSection::Comments,
                HelpSection::Session,
            ],
            HelpContext::Comments => seq![
                HelpSection::TaskDetail,
                HelpSection::TaskCreation,
                HelpSection::TaskList,
                HelpSection::Session,
            ],
            _ => seq![
                HelpSection::TaskList,
                HelpSection::TaskDetail,
                HelpSection::TaskCreation,
                HelpSection::Comments,
                HelpSection::Session,
            ],
        }
    }
}

/// Page 1 of the auth screen.
pub open spec fn auth_page() -> Seq<(Seq<char>, bool)> {
    seq![
        ("Auth"@, true),
        ("  Enter         - Connect to ClickUp"@, false),
        ("  Esc           - Cancel"@, false),
        (Seq::<char>::empty(), false),
    ]
}

/// Page 1 of the document viewer.
pub open spec fn document_page() -> Seq<(Seq<char>, bool)> {
    seq![
        ("Document"@, true),
        ("  j/k or ↑/↓  - Scroll"@, false),
        ("  Esc         - Close document"@, false),
        (Seq::<char>::empty(), false),
    ]
}

/// The lines of a help page.
pub open spec fn page_view(c: HelpContext, page: int) -> Seq<(Seq<char>, bool)> {
    if page == 0 && c == HelpContext::Auth {
        auth_page()
    } else if page == 0 && c == HelpContext::Document {
        document_page()
    } else {
        join_sections(page_sections(c, page))
    }
}

/// Every section of the help is on one of the three pages, and no section
/// of page 1 is repeated on page 3.
pub proof fn lemma_pages_cover_sections(c: HelpContext, s: HelpSection)
    ensures
        page_sections(c, 0).contains(s) || page_sections(c, 1).contains(s) || page_sections(
            c,
            2,
        ).contains(s),
        !(page_sections(c, 0).contains(s) && page_sections(c, 2).contains(s)),
{
    let p0 = page_sections(c, 0);
    let p1 = page_sections(c, 1);
    let p2 = page_sections(c, 2);
    match s {
        HelpSection::Navigation => assert(p1[0] == s),
        HelpSection::Global => assert(p1[1] == s),
        HelpSection::Actions => assert(p1[2] == s),
        HelpSection::Forms => assert(p1[3] == s),
        HelpSection::Session => {
            if c == HelpContext::TaskList || c == HelpContext::TaskDetail || c
                == HelpContext::Comments {
                assert(p2[3] == s);
            } else {
                assert(p2[4] == s);
            }
        },
        _ => {
            match c {
                HelpContext::TaskList => {
                    if s == HelpSection::TaskList {
                        assert(p0[0] == s);
                    } else if s == HelpSection::TaskDetail {
                        assert(p2[0] == s);
                    } else if s == HelpSection::TaskCreation {
                        assert(p2[1] == s);
                    } else {
                        assert(p2[2] == s);
                    }
                },
                HelpContext::TaskDetail => {
                    if s == HelpSection::TaskDetail {
                        assert(p0[0] == s);
                    } else if s == HelpSection::TaskList {
                        assert(p2[0] == s);
                    } else if s == HelpSection::TaskCreation {
                        assert(p2[1] == s);
                    } else {
                        assert(p2[2] == s);
                    }
                },
                HelpContext::Comments => {
                    if s == HelpSection::Comments {
                        assert(p0[0] == s);
                    } else if s == HelpSection::TaskDetail {
                        assert(p2[0] == s);
                    } else if s == HelpSection::TaskCreation {
                        assert(p2[1] == s);
                    } else {
                        assert(p2[2] == s);
                    }
                },
                _ => {
                    if s == HelpSection::TaskList {
                        assert(p2[0] == s);
                    } else if s == HelpSection::TaskDetail {
                        assert(p2[1] == s);
                    } else if s == HelpSection::TaskCreation {
                        assert(p2[2] == s);
                    } else {
                        assert(p2[3] == s);
                    }
                },
            }
        },
    }
}

/// Page 2 is the same in every context.
pub proof fn lemma_page2_global(c1: HelpContext, c2: HelpContext)
    ensures
        page_view(c1, 1) == page_view(c2, 1),
        page_view(c1, 1).len() > 0,
{
    reveal_with_fuel(join_sections, 5);
}

/// A section: its bold title, then `  {key:<14}- {desc}` for each shortcut.
pub fn section(title: &str, items: &[(&str, &str)]) -> (lines: Vec<HelpLine>)
    ensures
        lines_view(lines@) == section_view(
            title@,
            items@.map_values(|p: (&str, &str)| (p.0@, p.1@)),
        ),
{
    let ghost iv = items@.map_values(|p: (&str, &str)| (p.0@, p.1@));
    let mut lines: Vec<HelpLine> = Vec::new();
    lines.push(HelpLine { text: owned(title), bold: true });
    let mut i: usize = 0;
    while i < items.len()
        invariant
            i <= items@.len(),
            iv == items@.map_values(|p: (&str, &str)| (p.0@, p.1@)),
            lines_view(lines@) == section_view(title@, iv.take(i as int)),
        decreases items.len() - i,
    {
        let (key, desc) = items[i];
        assert(iv[i as int] == (key@, desc@));
        let ghost before = lines_view(lines@);
        let mut text = owned("  ");
        let padded = padded_right(key, 14);
        push_str(&mut text, padded.as_str());
        push_str(&mut text, "- ");
        push_str(&mut text, desc);
        assert(text@ == item_line(key@, desc@));
        lines.push(HelpLine { text, bold: false });
        proof {
            assert(lines_view(lines@) =~= before.push((item_line(key@, desc@), false)));
            assert(iv.take(i + 1) =~= iv.take(i as int).push(iv[i as int]));
            assert(lines_view(lines@) =~= section_view(title@, iv.take(i + 1)));
        }
        i = i + 1;
    }
    assert(iv.take(items.len() as int) =~= iv);
    lines
}

/// The lines of a section.
pub fn section_of(s: HelpSection) -> (lines: Vec<HelpLine>)
    ensures
        lines_view(lines@) == section_lines(s),
{
    let (title, items): (&str, Vec<(&str, &str)>) = match s {
        HelpSection::Navigation => (
            "Navigation",
            vec![
                ("j/k or ↑/↓", "Move selection"),
                ("Enter", "Select/Open item"),
                ("Esc", "Go back/Close"),
                ("g u", "Navigate to URL"),
            ],
        ),
        HelpSection::Global => (
            "Global",
            vec![
                ("Ctrl+Q", "Quit (saves session)"),
                ("Tab", "Toggle sidebar"),
                ("?", "Show this help"),
                ("u", "Copy element URL"),
            ],
        ),
        HelpSection::Actions => (
            "Actions",
            vec![
                ("n", "Create new item"),
                ("e", "Edit selected item"),
                ("d", "Delete selected item"),
            ],
        ),
        HelpSection::TaskList => (
            "Task List",
            vec![
                ("a", "Toggle Assigned to Me filter"),
                ("n", "Create new task"),
                ("s", "Open status picker"),
                ("d", "Delete selected task"),
            ],
        ),
        HelpSection::TaskDetail => (
            "Task Detail",
            vec![
                ("s", "Open status picker"),
                ("A", "Open assignee picker"),
                ("e", "Edit task"),
                ("Tab", "Toggle comments focus"),
                ("Esc", "Back to task list"),
            ],
        ),
        HelpSection::TaskCreation => (
            "Task Creation",
            vec![
                ("Tab", "Switch between name/description"),
                ("Ctrl+S", "Create task"),
                ("Esc", "Cancel creation"),
            ],
        ),
        HelpSection::Comments => (
            "Comments",
            vec![
                ("Tab", "Toggle focus (task/comments)"),
                ("j/k", "Navigate comments"),
                ("n", "New comment"),
                ("e", "Edit selected comment"),
                ("r", "Reply to thread (in thread view)"),
                ("Enter", "View thread"),
                ("Ctrl+S", "Save comment"),
                ("Esc", "Cancel editing / Exit thread"),
            ],
        ),
        HelpSection::Forms => ("Forms", vec![("Ctrl+S", "Save"), ("Esc", "Cancel")]),
        HelpSection::Session => (
            "Session",
            vec![("", "Session auto-saves on exit"), ("", "Restores last view on startup")],
        ),
    };
    assert(title@ == section_title(s));
    assert(items@.map_values(|p: (&str, &str)| (p.0@, p.1@)) =~= section_items(s));
    section(title, items.as_slice())
}

/// The sections of a page, as a list.
fn page_section_list(context: HelpContext, page: u8) -> (secs: Vec<HelpSection>)
    ensures
        secs@ == page_sections(context, page as int),
{
    let v: Vec<HelpSection> = if page == 0 {
        match context {
            HelpContext::Navigation => vec![HelpSection::Navigation],
            HelpContext::TaskList => vec![HelpSection::TaskList],
            HelpContext::TaskDetail => vec![HelpSection::TaskDetail],
            HelpContext::Comments => vec![HelpSection::Comments],
            _ => Vec::new(),
        }
    } else if page == 1 {
        vec![
            HelpSection::Navigation,
            HelpSection::Global,
            HelpSection::Actions,
            HelpSection::Forms,
        ]
    } else {
        match context {
            HelpContext::TaskList => vec![
                HelpSection::TaskDetail,
                HelpSection::TaskCreation,
                HelpSection::Comments,
                HelpSection::Session,
            ],
            HelpContext::TaskDetail => vec![
                HelpSection::TaskList,
                HelpSection::TaskCreation,
                HelpSection::Comments,
                HelpSection::Session,
            ],
            HelpContext::Comments => vec![
                HelpSection::TaskDetail,
                HelpSection::TaskCreation,
                HelpSection::TaskList,
                HelpSection::Session,
            ],
            _ => vec![
                HelpSection::TaskList,
                HelpSection::TaskDetail,
                HelpSection::TaskCreation,
                HelpSection::Comments,
                HelpSection::Session,
            ],
        }
    };
    assert(v@ =~= page_sections(context, page as int));
    v
}

/// A line of the given text and weight.
fn line(text: &str, bold: bool) -> (l: HelpLine)
    ensures
        line_view(l) == (text@, bold),
{
    HelpLine { text: owned(text), bold }
}

/// An empty line.
fn blank_line() -> (l: HelpLine)
    ensures
        line_view(l) == (Seq::<char>::empty(), false),
{
    HelpLine { text: String::new(), bold: false }
}

/// The lines of a help page (0-based) in a context.
pub fn page_lines(context: &HelpContext, page: u8) -> (lines: Vec<HelpLine>)
    ensures
        lines_view(lines@) == page_view(*context, page as int),
{
    if page == 0 && *context == HelpContext::Auth {
        let mut v: Vec<HelpLine> = Vec::new();
        v.push(line("Auth", true));
        v.push(line("  Enter         - Connect to ClickUp", false));
        v.push(line("  Esc           - Cancel", false));
        v.push(blank_line());
        proof {
            reveal_strlit("");
            assert(lines_view(v@) =~= auth_page());
        }
        return v;
    }
    if page == 0 && *context == HelpContext::Document {
        let mut v: Vec<HelpLine> = Vec::new();
        v.push(line("Document", true));
        v.push(line("  j/k or ↑/↓  - Scroll", false));
        v.push(line("  Esc         - Close document", false));
        v.push(blank_line());
        proof {
            reveal_strlit("");
            assert(lines_view(v@) =~= document_page());
        }
        return v;
    }
    let secs = page_section_list(*context, page);
    let mut lines: Vec<HelpLine> = Vec::new();
    let mut i: usize = 0;
    proof {
        assert(lines_view(lines@) =~= join_sections(secs@.take(0)));
    }
    while i < secs.len()
        invariant
            i <= secs@.len(),
            lines_view(lines@) == join_sections(secs@.take(i as int)),
        decreases secs.len() - i,
    {
        let ghost prev = lines_view(lines@);
        if i > 0 {
            lines.push(blank_line());
        }
        let ghost before = lines_view(lines@);
        proof {
            reveal_strlit("");
            if i > 0 {
                assert(before =~= prev.push((Seq::<char>::empty(), false)));
            } else {
                assert(before =~= prev);
            }
        }
        let mut sec = section_of(secs[i]);
        let ghost secv = lines_view(sec@);
        lines.append(&mut sec);
        proof {
            assert(lines_view(lines@) =~= before + secv);
            assert(secs@.take(i + 1).drop_last() =~= secs@.take(i as int));
            assert(lines_view(lines@) =~= join_sections(secs@.take(i + 1)));
        }
        i = i + 1;
    }
    assert(secs@.take(secs.len() as int) =~= secs@);
    lines
}

/// The help title for a page: ` Keyboard Shortcuts — {name}  ({page}/3) `.
pub fn page_title(context: &HelpContext, page: u8) -> (s: String)
    requires
        page < 255,
    ensures
        s@ == " Keyboard Shortcuts — "@ + (if page == 0 {
            page1_name_of(*context)
        } else if page == 1 {
            "Global"@
        } else {
            "Reference"@
        }) + "  ("@ + int_decimal(page + 1) + "/3) "@,
{
    let name = if page == 0 {
        context.page1_name()
    } else if page == 1 {
        "Global"
    } else {
        "Reference"
    };
    let mut s = owned(" Keyboard Shortcuts — ");
    push_str(&mut s, name);
    push_str(&mut s, "  (");
    let n = u64_to_string((page + 1) as u64);
    push_str(&mut s, n.as_str());
    push_str(&mut s, "/3) ");
    s
}

/// Status-bar hint with the page number: `j/k: Pages | Esc: Close | {page}/3`.
pub fn get_help_hints(state: &HelpState) -> (s: String)
    requires
        state.page < 255,
    ensures
        s@ == "j/k: Pages | Esc: Close | "@ + int_decimal(state.page + 1) + "/3"@,
{
    let mut s = owned("j/k: Pages | Esc: Close | ");
    let n = u64_to_string((state.page + 1) as u64);
    push_str(&mut s, n.as_str());
    push_str(&mut s, "/3");
    s
}

} // verus!
