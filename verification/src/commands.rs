//! What the headless debug commands print, and the exit code of a failure.
use vstd::prelude::*;

use crate::cli::args::{EXIT_AUTH_ERROR, EXIT_GENERAL_ERROR, EXIT_NETWORK_ERROR};
use crate::models::comment::{Comment, CreateCommentRequest, UpdateCommentRequest};
use crate::models::document::Document;
use crate::models::task::{Priority, Task};
use crate::models::workspace::{Folder, List, Space, Workspace};
use crate::text::{int_decimal, owned, push_str, u64_to_string};
use crate::tui::widgets::comments::format_timestamp;

verus! {

/// Whether `sub` occurs in `s`.
pub open spec fn occurs_in(s: Seq<char>, sub: Seq<char>) -> bool {
    exists|i: int| 0 <= i && i + sub.len() <= s.len() && #[trigger] s.subrange(i, i + sub.len()) == sub
}

/// Whether `sub` occurs in `s` (`str::contains`).
#[verifier::external_body]
fn str_contains(s: &str, sub: &str) -> (b: bool)
    ensures
        b == occurs_in(s@, sub@),
{
    s.contains(sub)
}

/// The exit code for a failed operation, by its message: authentication
/// failures, network failures, and everything else.
pub open spec fn exit_code_spec(msg: Seq<char>) -> i32 {
    if occurs_in(msg, "authentication"@) || occurs_in(msg, "unauthorized"@) || occurs_in(
        msg,
        "401"@,
    ) || occurs_in(msg, "403"@) {
        EXIT_AUTH_ERROR
    } else if occurs_in(msg, "network"@) || occurs_in(msg, "connection"@) || occurs_in(
        msg,
        "timeout"@,
    ) {
        EXIT_NETWORK_ERROR
    } else {
        EXIT_GENERAL_ERROR
    }
}

/// The exit code for a failed operation (see `exit_code_spec`).
pub fn exit_code_for_error(msg: &str) -> (c: i32)
    ensures
        c == exit_code_spec(msg@),
{
    if str_contains(msg, "authentication") || str_contains(msg, "unauthorized") || str_contains(
        msg,
        "401",
    ) || str_contains(msg, "403") {
        EXIT_AUTH_ERROR
    } else if str_contains(msg, "network") || str_contains(msg, "connection") || str_contains(
        msg,
        "timeout",
    ) {
        EXIT_NETWORK_ERROR
    } else {
        EXIT_GENERAL_ERROR
    }
}

/// The views of some lines.
pub open spec fn line_views(v: Seq<String>) -> Seq<Seq<char>> {
    v.map_values(|s: String| s@)
}

/// Appends a line.
fn push_line(lines: &mut Vec<String>, s: String)
    ensures
        final(lines)@ == old(lines)@.push(s),
        line_views(final(lines)@) == line_views(old(lines)@).push(s@),
{
    let ghost before = lines@;
    lines.push(s);
    assert(line_views(lines@) =~= line_views(before).push(s@));
}

/// `{id} - {name}{suffix}`.
pub open spec fn entry_line(id: Seq<char>, name: Seq<char>, suffix: Seq<char>) -> Seq<char> {
    id + " - "@ + name + suffix
}

/// `{id} - {name}{suffix}`.
fn entry_text(id: &str, name: &str, suffix: &str) -> (s: String)
    ensures
        s@ == entry_line(id@, name@, suffix@),
{
    let mut s = owned(id);
    push_str(&mut s, " - ");
    push_str(&mut s, name);
    push_str(&mut s, suffix);
    s
}

/// `prefix` followed by `rest`.
fn prefixed(prefix: &str, rest: &str) -> (s: String)
    ensures
        s@ == prefix@ + rest@,
{
    let mut s = owned(prefix);
    push_str(&mut s, rest);
    s
}

/// `prefix` followed by `mid` and `suffix`.
fn framed(prefix: &str, mid: &str, suffix: &str) -> (s: String)
    ensures
        s@ == prefix@ + mid@ + suffix@,
{
    let mut s = owned(prefix);
    push_str(&mut s, mid);
    push_str(&mut s, suffix);
    s
}

/// The line of a workspace: its id, name and colour (`none` without one).
pub open spec fn workspace_line(w: Workspace) -> Seq<char> {
    entry_line(
        w.id@,
        w.name@,
        " (color: "@ + match w.color {
            Some(c) => c@,
            None => "none"@,
        } + ")"@,
    )
}

/// The workspaces, one line each, or a line saying there are none.
pub fn workspace_listing(ws: &Vec<Workspace>) -> (lines: Vec<String>)
    ensures
        line_views(lines@) == if ws@.len() == 0 {
            seq!["No workspaces found."@]
        } else {
            ws@.map_values(|w: Workspace| workspace_line(w))
        },
{
    let mut lines: Vec<String> = Vec::new();
    if ws.len() == 0 {
        push_line(&mut lines, owned("No workspaces found."));
        assert(line_views(lines@) =~= seq!["No workspaces found."@]);
        return lines;
    }
    let mut i: usize = 0;
    while i < ws.len()
        invariant
            i <= ws@.len(),
            line_views(lines@) == ws@.take(i as int).map_values(|w: Workspace| workspace_line(w)),
        decreases ws@.len() - i,
    {
        let w = &ws[i];
        let color = match &w.color {
            Some(c) => c.as_str(),
            None => "none",
        };
        let suffix = framed(" (color: ", color, ")");
        push_line(&mut lines, entry_text(w.id.as_str(), w.name.as_str(), suffix.as_str()));
        proof {
            assert(ws@.take(i + 1) =~= ws@.take(i as int).push(ws@[i as int]));
            assert(line_views(lines@) =~= ws@.take(i + 1).map_values(
                |w: Workspace| workspace_line(w),
            ));
        }
        i = i + 1;
    }
    assert(ws@.take(ws@.len() as int) =~= ws@);
    lines
}

/// The line of a space: its id and name, marked when private.
pub open spec fn space_line(s: Space) -> Seq<char> {
    entry_line(
        s.id@,
        s.name@,
        if s.private {
            " (private)"@
        } else {
            ""@
        },
    )
}

/// The spaces of a workspace, one line each, or a line saying there are
/// none.
pub fn space_listing(workspace_id: &str, spaces: &Vec<Space>) -> (lines: Vec<String>)
    ensures
        line_views(lines@) == if spaces@.len() == 0 {
            seq!["No spaces found in workspace "@ + workspace_id@ + "."@]
        } else {
            spaces@.map_values(|s: Space| space_line(s))
        },
{
    let mut lines: Vec<String> = Vec::new();
    if spaces.len() == 0 {
        push_line(&mut lines, framed("No spaces found in workspace ", workspace_id, "."));
        assert(line_views(lines@) =~= seq!["No spaces found in workspace "@ + workspace_id@ + "."@]);
        return lines;
    }
    let mut i: usize = 0;
    while i < spaces.len()
        invariant
            i <= spaces@.len(),
            line_views(lines@) == spaces@.take(i as int).map_values(|s: Space| space_line(s)),
        decreases spaces@.len() - i,
    {
        let s = &spaces[i];
        let suffix = if s.private {
            " (private)"
        } else {
            ""
        };
        push_line(&mut lines, entry_text(s.id.as_str(), s.name.as_str(), suffix));
        proof {
            assert(spaces@.take(i + 1) =~= spaces@.take(i as int).push(spaces@[i as int]));
            assert(line_views(lines@) =~= spaces@.take(i + 1).map_values(|s: Space| space_line(s)));
        }
        i = i + 1;
    }
    assert(spaces@.take(spaces@.len() as int) =~= spaces@);
    lines
}

/// The line of a folder: its id and name, marked when private.
pub open spec fn folder_line(f: Folder) -> Seq<char> {
    entry_line(
        f.id@,
        f.name@,
        if f.private {
            " (private)"@
        } else {
            ""@
        },
    )
}

/// The folders of a space, one line each, or a line saying there are none.
pub fn folder_listing(space_id: &str, folders: &Vec<Folder>) -> (lines: Vec<String>)
    ensures
        line_views(lines@) == if folders@.len() == 0 {
            seq!["No folders found in space "@ + space_id@ + "."@]
        } else {
            folders@.map_values(|f: Folder| folder_line(f))
        },
{
    let mut lines: Vec<String> = Vec::new();
    if folders.len() == 0 {
        push_line(&mut lines, framed("No folders found in space ", space_id, "."));
        assert(line_views(lines@) =~= seq!["No folders found in space "@ + space_id@ + "."@]);
        return lines;
    }
    let mut i: usize = 0;
    while i < folders.len()
        invariant
            i <= folders@.len(),
            line_views(lines@) == folders@.take(i as int).map_values(|f: Folder| folder_line(f)),
        decreases folders@.len() - i,
    {
        let f = &folders[i];
        let suffix = if f.private {
            " (private)"
        } else {
            ""
        };
        push_line(&mut lines, entry_text(f.id.as_str(), f.name.as_str(), suffix));
        proof {
            assert(folders@.take(i + 1) =~= folders@.take(i as int).push(folders@[i as int]));
            assert(line_views(lines@) =~= folders@.take(i + 1).map_values(
                |f: Folder| folder_line(f),
            ));
        }
        i = i + 1;
    }
    assert(folders@.take(folders@.len() as int) =~= folders@);
    lines
}

/// The line of a list: its id and name, marked when archived.
pub open spec fn list_line(l: List) -> Seq<char> {
    entry_line(
        l.id@,
        l.name@,
        if l.archived {
            " (archived)"@
        } else {
            ""@
        },
    )
}

/// The lists of a folder (or the folderless lists of a space), one line
/// each, or a line saying there are none.
pub fn list_listing(parent_id: &str, in_space: bool, lists: &Vec<List>) -> (lines: Vec<String>)
    ensures
        line_views(lines@) == if lists@.len() == 0 {
            if in_space {
                seq!["No folderless lists found in space "@ + parent_id@ + "."@]
            } else {
                seq!["No lists found in folder "@ + parent_id@ + "."@]
            }
        } else {
            lists@.map_values(|l: List| list_line(l))
        },
{
    let mut lines: Vec<String> = Vec::new();
    if lists.len() == 0 {
        if in_space {
            push_line(&mut lines, framed("No folderless lists found in space ", parent_id, "."));
            assert(line_views(lines@) =~= seq![
                "No folderless lists found in space "@ + parent_id@ + "."@,
            ]);
        } else {
            push_line(&mut lines, framed("No lists found in folder ", parent_id, "."));
            assert(line_views(lines@) =~= seq!["No lists found in folder "@ + parent_id@ + "."@]);
        }
        return lines;
    }
    let mut i: usize = 0;
    while i < lists.len()
        invariant
            i <= lists@.len(),
            line_views(lines@) == lists@.take(i as int).map_values(|l: List| list_line(l)),
        decreases lists@.len() - i,
    {
        let l = &lists[i];
        let suffix = if l.archived {
            " (archived)"
        } else {
            ""
        };
        push_line(&mut lines, entry_text(l.id.as_str(), l.name.as_str(), suffix));
        proof {
            assert(lists@.take(i + 1) =~= lists@.take(i as int).push(lists@[i as int]));
            assert(line_views(lines@) =~= lists@.take(i + 1).map_values(|l: List| list_line(l)));
        }
        i = i + 1;
    }
    assert(lists@.take(lists@.len() as int) =~= lists@);
    lines
}

/// The line of a document: its id and name.
pub open spec fn doc_line(d: Document) -> Seq<char> {
    entry_line(d.id@, d.name@, ""@)
}

/// The documents found for a search, one line each, or a line saying there
/// are none.
pub fn doc_listing(query: &str, docs: &Vec<Document>) -> (lines: Vec<String>)
    ensures
        line_views(lines@) == if docs@.len() == 0 {
            seq!["No documents found matching '"@ + query@ + "'."@]
        } else {
            docs@.map_values(|d: Document| doc_line(d))
        },
{
    let mut lines: Vec<String> = Vec::new();
    if docs.len() == 0 {
        push_line(&mut lines, framed("No documents found matching '", query, "'."));
        assert(line_views(lines@) =~= seq!["No documents found matching '"@ + query@ + "'."@]);
        return lines;
    }
    let mut i: usize = 0;
    while i < docs.len()
        invariant
            i <= docs@.len(),
            line_views(lines@) == docs@.take(i as int).map_values(|d: Document| doc_line(d)),
        decreases docs@.len() - i,
    {
        let d = &docs[i];
        push_line(&mut lines, entry_text(d.id.as_str(), d.name.as_str(), ""));
        proof {
            assert(docs@.take(i + 1) =~= docs@.take(i as int).push(docs@[i as int]));
            assert(line_views(lines@) =~= docs@.take(i + 1).map_values(|d: Document| doc_line(d)));
        }
        i = i + 1;
    }
    assert(docs@.take(docs@.len() as int) =~= docs@);
    lines
}

/// What `format!("{:?}", s)` gives for a string: the string quoted, with
/// quotes, backslashes and unprintable characters escaped.
pub uninterp spec fn spec_debug_quoted(s: Seq<char>) -> Seq<char>;

/// The debug rendering of a string (`format!("{:?}", s)`).
#[verifier::external_body]
fn debug_quoted(s: &str) -> (q: String)
    ensures
        q@ == spec_debug_quoted(s@),
{
    format!("{:?}", s)
}

/// The debug rendering of a priority, as the task listing shows it.
pub open spec fn priority_debug(p: Priority) -> Seq<char> {
    "Priority { priority: "@ + spec_debug_quoted(p.priority@) + ", color: "@ + match p.color {
        Some(c) => "Some("@ + spec_debug_quoted(c@) + ")"@,
        None => "None"@,
    } + " }"@
}

/// The line of a task: id, name, status (`unknown` without one) and
/// priority (`none` without one).
pub open spec fn task_line(t: Task) -> Seq<char> {
    entry_line(
        t.id@,
        t.name@,
        " [status: "@ + match t.status {
            Some(s) => s.status@,
            None => "unknown"@,
        } + ", priority: "@ + match t.priority {
            Some(p) => priority_debug(p),
            None => "none"@,
        } + "]"@,
    )
}

/// The debug rendering of a priority.
fn priority_text(p: &Priority) -> (s: String)
    ensures
        s@ == priority_debug(*p),
{
    let mut s = owned("Priority { priority: ");
    let q = debug_quoted(p.priority.as_str());
    push_str(&mut s, q.as_str());
    push_str(&mut s, ", color: ");
    match &p.color {
        Some(c) => {
            push_str(&mut s, "Some(");
            let qc = debug_quoted(c.as_str());
            push_str(&mut s, qc.as_str());
            push_str(&mut s, ")");
        },
        None => push_str(&mut s, "None"),
    }
    push_str(&mut s, " }");
    s
}

/// The tasks of a list, one line each, or a line saying there are none.
pub fn task_listing(list_id: &str, tasks: &Vec<Task>) -> (lines: Vec<String>)
    ensures
        line_views(lines@) == if tasks@.len() == 0 {
            seq!["No tasks found in list "@ + list_id@ + "."@]
        } else {
            tasks@.map_values(|t: Task| task_line(t))
        },
{
    let mut lines: Vec<String> = Vec::new();
    if tasks.len() == 0 {
        push_line(&mut lines, framed("No tasks found in list ", list_id, "."));
        assert(line_views(lines@) =~= seq!["No tasks found in list "@ + list_id@ + "."@]);
        return lines;
    }
    let mut i: usize = 0;
    while i < tasks.len()
        invariant
            i <= tasks@.len(),
            line_views(lines@) == tasks@.take(i as int).map_values(|t: Task| task_line(t)),
        decreases tasks@.len() - i,
    {
        let t = &tasks[i];
        let status = match &t.status {
            Some(s) => s.status.as_str(),
            None => "unknown",
        };
        let priority = match &t.priority {
            Some(p) => priority_text(p),
            None => owned("none"),
        };
        let mut suffix = framed(" [status: ", status, ", priority: ");
        push_str(&mut suffix, priority.as_str());
        push_str(&mut suffix, "]");
        push_line(&mut lines, entry_text(t.id.as_str(), t.name.as_str(), suffix.as_str()));
        proof {
            assert(tasks@.take(i + 1) =~= tasks@.take(i as int).push(tasks@[i as int]));
            assert(line_views(lines@) =~= tasks@.take(i + 1).map_values(|t: Task| task_line(t)));
        }
        i = i + 1;
    }
    assert(tasks@.take(tasks@.len() as int) =~= tasks@);
    lines
}

/// `{prefix}{name} ({id})`.
pub open spec fn named_id(prefix: Seq<char>, name: Seq<char>, id: Seq<char>) -> Seq<char> {
    prefix + name + " ("@ + id + ")"@
}

/// `{prefix}{name} ({id})`.
fn named_id_text(prefix: &str, name: &str, id: &str) -> (s: String)
    ensures
        s@ == named_id(prefix@, name@, id@),
{
    let mut s = owned(prefix);
    push_str(&mut s, name);
    push_str(&mut s, " (");
    push_str(&mut s, id);
    push_str(&mut s, ")");
    s
}

/// `{prefix}{n}{suffix}`.
fn counted(prefix: &str, n: usize, suffix: &str) -> (s: String)
    ensures
        s@ == prefix@ + int_decimal(n as int) + suffix@,
{
    let num = u64_to_string(n as u64);
    framed(prefix, num.as_str(), suffix)
}

/// The first lines of the hierarchy walk of a workspace: which workspace,
/// and how many spaces it has.
pub fn explore_heading(workspace_id: &str, space_count: usize) -> (lines: Vec<String>)
    ensures
        line_views(lines@) == seq![
            "=== Exploring Workspace: "@ + workspace_id@ + " ===\n"@,
            "Found "@ + int_decimal(space_count as int) + " space(s)\n"@,
        ],
{
    let mut lines: Vec<String> = Vec::new();
    push_line(&mut lines, framed("=== Exploring Workspace: ", workspace_id, " ===\n"));
    push_line(&mut lines, counted("Found ", space_count, " space(s)\n"));
    assert(line_views(lines@) =~= seq![
        "=== Exploring Workspace: "@ + workspace_id@ + " ===\n"@,
        "Found "@ + int_decimal(space_count as int) + " space(s)\n"@,
    ]);
    lines
}

/// The lines that open a space in the hierarchy walk: its name and id, and
/// how many folders it has.
pub fn explore_space_heading(space: &Space, folder_count: usize) -> (lines: Vec<String>)
    ensures
        line_views(lines@) == seq![
            named_id("--- Space: "@, space.name@, space.id@) + " ---"@,
            "  Folders: "@ + int_decimal(folder_count as int),
        ],
{
    let mut lines: Vec<String> = Vec::new();
    let mut head = named_id_text("--- Space: ", space.name.as_str(), space.id.as_str());
    push_str(&mut head, " ---");
    push_line(&mut lines, head);
    push_line(&mut lines, counted("  Folders: ", folder_count, ""));
    proof {
        reveal_strlit("");
    }
    assert(line_views(lines@) =~= seq![
        named_id("--- Space: "@, space.name@, space.id@) + " ---"@,
        "  Folders: "@ + int_decimal(folder_count as int),
    ]);
    lines
}

/// The lines that open a folder in the hierarchy walk: its name and id, and
/// how many lists it has.
pub fn explore_folder_heading(folder: &Folder, list_count: usize) -> (lines: Vec<String>)
    ensures
        line_views(lines@) == seq![
            named_id("    Folder: "@, folder.name@, folder.id@),
            "      Lists: "@ + int_decimal(list_count as int),
        ],
{
    let mut lines: Vec<String> = Vec::new();
    push_line(&mut lines, named_id_text("    Folder: ", folder.name.as_str(), folder.id.as_str()));
    push_line(&mut lines, counted("      Lists: ", list_count, ""));
    proof {
        reveal_strlit("");
    }
    assert(line_views(lines@) =~= seq![
        named_id("    Folder: "@, folder.name@, folder.id@),
        "      Lists: "@ + int_decimal(list_count as int),
    ]);
    lines
}

/// The lines of a list of a folder in the hierarchy walk: its name and id,
/// how many tasks it has and, when it has any, the id of the first.
pub fn explore_list_lines(list: &List, tasks: &Vec<Task>) -> (lines: Vec<String>)
    ensures
        line_views(lines@) == seq![
            named_id("        List: "@, list.name@, list.id@),
            "          Tasks: "@ + int_decimal(tasks@.len() as int),
        ] + if tasks@.len() > 0 {
            seq!["          Sample task ID: "@ + tasks@[0].id@]
        } else {
            Seq::empty()
        },
{
    let mut lines: Vec<String> = Vec::new();
    push_line(&mut lines, named_id_text("        List: ", list.name.as_str(), list.id.as_str()));
    push_line(&mut lines, counted("          Tasks: ", tasks.len(), ""));
    if tasks.len() > 0 {
        push_line(&mut lines, prefixed("          Sample task ID: ", tasks[0].id.as_str()));
    }
    proof {
        reveal_strlit("");
    }
    assert(line_views(lines@) =~= seq![
        named_id("        List: "@, list.name@, list.id@),
        "          Tasks: "@ + int_decimal(tasks@.len() as int),
    ] + if tasks@.len() > 0 {
        seq!["          Sample task ID: "@ + tasks@[0].id@]
    } else {
        Seq::empty()
    });
    lines
}

/// The line of a folderless list in the hierarchy walk.
pub open spec fn folderless_line(l: List) -> Seq<char> {
    named_id("    List: "@, l.name@, l.id@)
}

/// The folderless lists of a space in the hierarchy walk: nothing when
/// there are none, else their number and one line each.
pub fn explore_folderless_lines(lists: &Vec<List>) -> (lines: Vec<String>)
    ensures
        line_views(lines@) == if lists@.len() == 0 {
            Seq::empty()
        } else {
            seq!["  Folderless Lists: "@ + int_decimal(lists@.len() as int)] + lists@.map_values(
                |l: List| folderless_line(l),
            )
        },
{
    let mut lines: Vec<String> = Vec::new();
    if lists.len() == 0 {
        assert(line_views(lines@) =~= Seq::empty());
        return lines;
    }
    push_line(&mut lines, counted("  Folderless Lists: ", lists.len(), ""));
    proof {
        reveal_strlit("");
    }
    let ghost head = seq!["  Folderless Lists: "@ + int_decimal(lists@.len() as int)];
    assert(line_views(lines@) =~= head);
    let mut i: usize = 0;
    while i < lists.len()
        invariant
            i <= lists@.len(),
            line_views(lines@) == head + lists@.take(i as int).map_values(
                |l: List| folderless_line(l),
            ),
        decreases lists@.len() - i,
    {
        let l = &lists[i];
        push_line(&mut lines, named_id_text("    List: ", l.name.as_str(), l.id.as_str()));
        proof {
            assert(lists@.take(i + 1) =~= lists@.take(i as int).push(lists@[i as int]));
            assert(line_views(lines@) =~= head + lists@.take(i + 1).map_values(
                |l: List| folderless_line(l),
            ));
        }
        i = i + 1;
    }
    assert(lists@.take(lists@.len() as int) =~= lists@);
    lines
}

/// What the sign-in check prints: yes with the number of workspaces, or no.
pub fn auth_status_lines(workspace_count: Option<usize>) -> (lines: Vec<String>)
    ensures
        line_views(lines@) == match workspace_count {
            Some(n) => seq!["Authenticated: yes"@, "Workspace count: "@ + int_decimal(n as int)],
            None => seq!["Authenticated: no"@],
        },
{
    let mut lines: Vec<String> = Vec::new();
    match workspace_count {
        Some(n) => {
            push_line(&mut lines, owned("Authenticated: yes"));
            let count = u64_to_string(n as u64);
            push_line(&mut lines, prefixed("Workspace count: ", count.as_str()));
            assert(line_views(lines@) =~= seq![
                "Authenticated: yes"@,
                "Workspace count: "@ + int_decimal(n as int),
            ]);
        },
        None => {
            push_line(&mut lines, owned("Authenticated: no"));
            assert(line_views(lines@) =~= seq!["Authenticated: no"@]);
        },
    }
    lines
}

/// Whether a comment was edited after it was written.
pub open spec fn edited(c: Comment) -> bool {
    c.updated_at is Some && c.updated_at != c.created_at
}

/// The author shown for a comment.
pub open spec fn comment_author(c: Comment) -> Seq<char> {
    match c.commenter {
        Some(u) => u.username@,
        None => "Anonymous"@,
    }
}

/// The lines printed for the comments of a task: a heading, then for each
/// comment its number, author, date (rendered by `date`) and an edited
/// mark, its text indented, and an empty line.
pub open spec fn comment_block(n: int, c: Comment, date: Seq<char>) -> Seq<Seq<char>> {
    seq![
        "["@ + int_decimal(n) + "] "@ + comment_author(c) + " - "@ + date + if edited(c) {
            " (edited)"@
        } else {
            ""@
        },
        "    "@ + c.text@,
        ""@,
    ]
}

/// A comment is marked ` (edited)` exactly when it has an update time that
/// differs from its creation time: the first line of its block is
/// `[n] author - date (edited)` then, and `[n] author - date` when it has no
/// update time or one equal to its creation time.
pub proof fn lemma_edited_mark(n: int, c: Comment, d: Seq<char>)
    ensures
        (c.updated_at matches Some(u) && c.created_at != Some(u)) ==> comment_block(n, c, d)[0]
            == "["@ + int_decimal(n) + "] "@ + comment_author(c) + " - "@ + d + " (edited)"@,
        (c.updated_at is None || c.updated_at == c.created_at) ==> comment_block(n, c, d)[0]
            == "["@ + int_decimal(n) + "] "@ + comment_author(c) + " - "@ + d,
{
    reveal_strlit("");
    let head = "["@ + int_decimal(n) + "] "@ + comment_author(c) + " - "@ + d;
    assert(head + ""@ =~= head);
}

/// The three lines of comment `i` (0-based) in a listing, with some date
/// text, which is `Unknown date` when the comment has no creation time.
pub open spec fn block_at(lines: Seq<Seq<char>>, i: int, c: Comment) -> bool {
    exists|d: Seq<char>|
        #![trigger comment_block(i + 1, c, d)]
        lines.subrange(1 + 3 * i, 1 + 3 * i + 3) == comment_block(i + 1, c, d) && (c.created_at
            is None ==> d == "Unknown date"@)
}

/// The comments of a task as printed: a heading, then three lines per
/// comment (see `comment_block`), its date rendered in local time.
pub fn comment_listing(task_id: &str, comments: &Vec<Comment>) -> (lines: Vec<String>)
    ensures
        comments@.len() == 0 ==> line_views(lines@) == seq![
            "No comments found for task "@ + task_id@ + "."@,
        ],
        comments@.len() > 0 ==> {
            &&& lines@.len() == 1 + 3 * comments@.len()
            &&& lines@[0]@ == "Comments for task "@ + task_id@ + ":\n"@
            &&& forall|i: int|
                #![trigger comments@[i]]
                0 <= i < comments@.len() ==> block_at(line_views(lines@), i, comments@[i])
        },
{
    let mut lines: Vec<String> = Vec::new();
    if comments.len() == 0 {
        push_line(&mut lines, framed("No comments found for task ", task_id, "."));
        assert(line_views(lines@) =~= seq!["No comments found for task "@ + task_id@ + "."@]);
        return lines;
    }
    push_line(&mut lines, framed("Comments for task ", task_id, ":\n"));
    let mut i: usize = 0;
    while i < comments.len()
        invariant
            i <= comments@.len(),
            lines@.len() == 1 + 3 * i,
            lines@[0]@ == "Comments for task "@ + task_id@ + ":\n"@,
            forall|j: int|
                #![trigger comments@[j]]
                0 <= j < i ==> block_at(line_views(lines@), j, comments@[j]),
        decreases comments@.len() - i,
    {
        let c = &comments[i];
        let author = match &c.commenter {
            Some(u) => u.username.as_str(),
            None => "Anonymous",
        };
        let date = match c.created_at {
            Some(ts) => format_timestamp(ts),
            None => owned("Unknown date"),
        };
        let edited = match c.updated_at {
            Some(u) => match c.created_at {
                Some(cr) => u != cr,
                None => true,
            },
            None => false,
        };
        let num = u64_to_string((i + 1) as u64);
        let mut head = framed("[", num.as_str(), "] ");
        push_str(&mut head, author);
        push_str(&mut head, " - ");
        push_str(&mut head, date.as_str());
        if edited {
            push_str(&mut head, " (edited)");
        }
        let ghost before = lines@;
        push_line(&mut lines, head);
        push_line(&mut lines, prefixed("    ", c.text.as_str()));
        push_line(&mut lines, owned(""));
        proof {
            reveal_strlit("");
            assert forall|j: int|
                #![trigger comments@[j]]
                0 <= j < i + 1 implies block_at(line_views(lines@), j, comments@[j]) by {
                if j < i {
                    let d = choose|d: Seq<char>|
                        #![trigger comment_block(j + 1, comments@[j], d)]
                        line_views(before).subrange(1 + 3 * j, 1 + 3 * j + 3) == comment_block(
                            j + 1,
                            comments@[j],
                            d,
                        ) && (comments@[j].created_at is None ==> d == "Unknown date"@);
                    assert(line_views(lines@).subrange(1 + 3 * j, 1 + 3 * j + 3)
                        =~= line_views(before).subrange(1 + 3 * j, 1 + 3 * j + 3));
                    assert(line_views(lines@).subrange(1 + 3 * j, 1 + 3 * j + 3) == comment_block(
                        j + 1,
                        comments@[j],
                        d,
                    ));
                } else {
                    assert(line_views(lines@).subrange(1 + 3 * j, 1 + 3 * j + 3)
                        =~= comment_block(j + 1, comments@[j], date@));
                }
            }
        }
        i = i + 1;
    }
    lines
}

/// What is printed after a comment was posted: its id, text and author.
pub fn comment_created_lines(c: &Comment) -> (lines: Vec<String>)
    ensures
        line_views(lines@) == seq!["Comment created: "@ + c.id@, "Text: "@ + c.text@] + match c.commenter {
            Some(u) => seq!["Author: "@ + u.username@],
            None => Seq::empty(),
        },
{
    let mut lines: Vec<String> = Vec::new();
    push_line(&mut lines, prefixed("Comment created: ", c.id.as_str()));
    push_line(&mut lines, prefixed("Text: ", c.text.as_str()));
    match &c.commenter {
        Some(u) => {
            push_line(&mut lines, prefixed("Author: ", u.username.as_str()));
        },
        None => {},
    }
    assert(line_views(lines@) =~= seq!["Comment created: "@ + c.id@, "Text: "@ + c.text@] + match c.commenter {
        Some(u) => seq!["Author: "@ + u.username@],
        None => Seq::empty(),
    });
    lines
}

/// What is printed after a comment was changed: its id and text.
pub fn comment_updated_lines(c: &Comment) -> (lines: Vec<String>)
    ensures
        line_views(lines@) == seq!["Comment updated: "@ + c.id@, "Text: "@ + c.text@],
{
    let mut lines: Vec<String> = Vec::new();
    push_line(&mut lines, prefixed("Comment updated: ", c.id.as_str()));
    push_line(&mut lines, prefixed("Text: ", c.text.as_str()));
    assert(line_views(lines@) =~= seq!["Comment updated: "@ + c.id@, "Text: "@ + c.text@]);
    lines
}

/// The request that posts a comment or, with a parent, a reply.
pub fn comment_request(
    text: &str,
    parent_id: Option<&str>,
    assignee: Option<i64>,
    assigned_commenter: Option<i64>,
) -> (r: CreateCommentRequest)
    ensures
        r.comment_text@ == text@,
        r.assignee == assignee,
        r.assigned_commenter == assigned_commenter,
        match parent_id {
            Some(p) => r.parent_id matches Some(q) && q@ == p@,
            None => r.parent_id is None,
        },
{
    CreateCommentRequest {
        comment_text: owned(text),
        assignee,
        assigned_commenter,
        parent_id: match parent_id {
            Some(p) => Some(owned(p)),
            None => None,
        },
    }
}

/// The request that changes the text of a comment and nothing else.
pub fn comment_update_request(text: &str) -> (r: UpdateCommentRequest)
    ensures
        r.comment_text matches Some(t) && t@ == text@,
        r.assigned is None,
        r.assignee is None,
        r.assigned_commenter is None,
{
    UpdateCommentRequest {
        comment_text: Some(owned(text)),
        assigned: None,
        assignee: None,
        assigned_commenter: None,
    }
}

} // verus!
