//! Command-line arguments of the headless debug mode.
//!
//! `clickdown debug <operation> [OPTIONS]` runs one API operation and prints
//! the result; without arguments the program starts the terminal interface.
use vstd::prelude::*;

use crate::text::{has_prefix, owned, push_str, starts_with, str_eq};

verus! {

/// Process exit codes.
pub const EXIT_SUCCESS: i32 = 0;

/// Exit code of a general failure.
pub const EXIT_GENERAL_ERROR: i32 = 1;

/// Exit code of invalid arguments.
pub const EXIT_INVALID_ARGS: i32 = 2;

/// Exit code of an authentication failure.
pub const EXIT_AUTH_ERROR: i32 = 3;

/// Exit code of a network failure.
pub const EXIT_NETWORK_ERROR: i32 = 4;

/// Parsed command line.
#[derive(Debug, Clone)]
pub struct CliArgs {
    /// The debug operation to run, if any (`None` runs the interface).
    pub debug_command: Option<DebugCommand>,
}

/// A debug operation with its options.
#[derive(Debug, Clone)]
pub struct DebugCommand {
    pub operation: DebugOperation,
    /// Print JSON.
    pub json: bool,
    /// Verbose logging.
    pub verbose: bool,
    /// Token to use instead of the stored one.
    pub token_override: Option<String>,
    /// Comment text (create/update operations).
    pub text: Option<String>,
    /// Parent comment id (threaded comments).
    pub parent_id: Option<String>,
    /// Assignee user id.
    pub assignee: Option<String>,
    /// Assigned commenter user id.
    pub assigned_commenter: Option<String>,
}

/// The debug operations.
#[derive(Debug, Clone, PartialEq)]
pub enum DebugOperation {
    Workspaces,
    Tasks { list_id: String },
    Docs { query: String },
    AuthStatus,
    Help,
    Spaces { workspace_id: String },
    Folders { space_id: String },
    Lists { id: String, in_space: bool },
    Task { task_id: String },
    Explore { workspace_id: String },
    Comments { task_id: String },
    CreateComment { task_id: String },
    CreateReply { comment_id: String },
    UpdateComment { comment_id: String },
}

/// A debug operation as plain values.
pub enum OpView {
    Workspaces,
    Tasks(Seq<char>),
    Docs(Seq<char>),
    AuthStatus,
    Help,
    Spaces(Seq<char>),
    Folders(Seq<char>),
    Lists(Seq<char>, bool),
    Task(Seq<char>),
    Explore(Seq<char>),
    Comments(Seq<char>),
    CreateComment(Seq<char>),
    CreateReply(Seq<char>),
    UpdateComment(Seq<char>),
}

/// The view of an operation.
pub open spec fn op_view(op: DebugOperation) -> OpView {
    match op {
        DebugOperation::Workspaces => OpView::Workspaces,
        DebugOperation::Tasks { list_id } => OpView::Tasks(list_id@),
        DebugOperation::Docs { query } => OpView::Docs(query@),
        DebugOperation::AuthStatus => OpView::AuthStatus,
        DebugOperation::Help => OpView::Help,
        DebugOperation::Spaces { workspace_id } => OpView::Spaces(workspace_id@),
        DebugOperation::Folders { space_id } => OpView::Folders(space_id@),
        DebugOperation::Lists { id, in_space } => OpView::Lists(id@, in_space),
        DebugOperation::Task { task_id } => OpView::Task(task_id@),
        DebugOperation::Explore { workspace_id } => OpView::Explore(workspace_id@),
        DebugOperation::Comments { task_id } => OpView::Comments(task_id@),
        DebugOperation::CreateComment { task_id } => OpView::CreateComment(task_id@),
        DebugOperation::CreateReply { comment_id } => OpView::CreateReply(comment_id@),
        DebugOperation::UpdateComment { comment_id } => OpView::UpdateComment(comment_id@),
    }
}

/// The options gathered while reading the arguments.
pub struct CmdView {
    pub op: Option<OpView>,
    pub json: bool,
    pub verbose: bool,
    pub token: Option<Seq<char>>,
    pub text: Option<Seq<char>>,
    pub parent_id: Option<Seq<char>>,
    pub assignee: Option<Seq<char>>,
    pub assigned_commenter: Option<Seq<char>>,
}

/// Nothing read yet.
pub open spec fn empty_cmd() -> CmdView {
    CmdView {
        op: None,
        json: false,
        verbose: false,
        token: None,
        text: None,
        parent_id: None,
        assignee: None,
        assigned_commenter: None,
    }
}

/// The operation keyword that takes one value, and the operation it builds.
pub open spec fn valued_op(word: Seq<char>, value: Seq<char>) -> Option<OpView> {
    if word == "tasks"@ {
        Some(OpView::Tasks(value))
    } else if word == "docs"@ {
        Some(OpView::Docs(value))
    } else if word == "spaces"@ {
        Some(OpView::Spaces(value))
    } else if word == "folders"@ {
        Some(OpView::Folders(value))
    } else if word == "task"@ {
        Some(OpView::Task(value))
    } else if word == "explore"@ {
        Some(OpView::Explore(value))
    } else if word == "comments"@ {
        Some(OpView::Comments(value))
    } else if word == "create-comment"@ {
        Some(OpView::CreateComment(value))
    } else if word == "create-reply"@ {
        Some(OpView::CreateReply(value))
    } else if word == "update-comment"@ {
        Some(OpView::UpdateComment(value))
    } else {
        None
    }
}

/// The message when an operation keyword has no value.
pub open spec fn missing_value_message(word: Seq<char>) -> Seq<char> {
    if word == "tasks"@ {
        "tasks requires a list_id argument"@
    } else if word == "docs"@ {
        "docs requires a query argument"@
    } else if word == "spaces"@ {
        "spaces requires a workspace_id argument"@
    } else if word == "folders"@ {
        "folders requires a space_id argument"@
    } else if word == "task"@ {
        "task requires a task_id argument"@
    } else if word == "explore"@ {
        "explore requires a workspace_id argument"@
    } else if word == "comments"@ {
        "comments requires a task_id argument"@
    } else if word == "create-comment"@ {
        "create-comment requires a task_id argument"@
    } else if word == "create-reply"@ {
        "create-reply requires a comment_id argument"@
    } else {
        "update-comment requires a comment_id argument"@
    }
}

/// Whether a word is an option that takes a value.
pub open spec fn is_value_option(word: Seq<char>) -> bool {
    word == "--text"@ || word == "--parent-id"@ || word == "--assignee"@ || word
        == "--assigned-commenter"@ || word == "--token"@
}

/// `st` with the value of a value-taking option set.
pub open spec fn with_option(st: CmdView, word: Seq<char>, value: Seq<char>) -> CmdView {
    if word == "--text"@ {
        CmdView { text: Some(value), ..st }
    } else if word == "--parent-id"@ {
        CmdView { parent_id: Some(value), ..st }
    } else if word == "--assignee"@ {
        CmdView { assignee: Some(value), ..st }
    } else if word == "--assigned-commenter"@ {
        CmdView { assigned_commenter: Some(value), ..st }
    } else {
        CmdView { token: Some(value), ..st }
    }
}

/// Reads the arguments from index `i` on, with `st` gathered so far: either
/// the options gathered over all arguments, or the error message of the
/// first bad argument.
pub open spec fn parse_from(args: Seq<Seq<char>>, i: int, st: CmdView) -> Result<
    CmdView,
    Seq<char>,
>
    decreases args.len() - i,
{
    if i < 0 || i >= args.len() {
        Ok(st)
    } else {
        let a = args[i];
        if a == "--json"@ {
            parse_from(args, i + 1, CmdView { json: true, ..st })
        } else if a == "--verbose"@ || a == "-v"@ {
            parse_from(args, i + 1, CmdView { verbose: true, ..st })
        } else if is_value_option(a) {
            if i + 1 >= args.len() {
                Err(a + " requires a value"@)
            } else {
                parse_from(args, i + 2, with_option(st, a, args[i + 1]))
            }
        } else if a == "workspaces"@ || a == "auth-status"@ {
            if st.op is Some {
                Err("Multiple operations specified"@)
            } else {
                parse_from(
                    args,
                    i + 1,
                    CmdView {
                        op: Some(
                            if a == "workspaces"@ {
                                OpView::Workspaces
                            } else {
                                OpView::AuthStatus
                            },
                        ),
                        ..st
                    },
                )
            }
        } else if a == "lists"@ {
            if st.op is Some {
                Err("Multiple operations specified"@)
            } else if i + 1 >= args.len() {
                Err("lists requires a folder_id or space_id argument"@)
            } else {
                let in_space = i + 2 < args.len() && args[i + 2] == "--in-space"@;
                parse_from(
                    args,
                    if in_space {
                        i + 3
                    } else {
                        i + 2
                    },
                    CmdView { op: Some(OpView::Lists(args[i + 1], in_space)), ..st },
                )
            }
        } else if valued_op(a, Seq::empty()) is Some {
            if st.op is Some {
                Err("Multiple operations specified"@)
            } else if i + 1 >= args.len() {
                Err(missing_value_message(a))
            } else {
                parse_from(args, i + 2, CmdView { op: valued_op(a, args[i + 1]), ..st })
            }
        } else if a == "--help"@ || a == "-h"@ {
            parse_from(args, i + 1, CmdView { op: Some(OpView::Help), ..st })
        } else if st.op is None && !starts_with(a, seq!['-']) {
            Err("Unknown operation: "@ + a)
        } else if starts_with(a, seq!['-']) {
            Err("Unknown option: "@ + a)
        } else {
            parse_from(args, i + 1, st)
        }
    }
}

/// Whether an operation posts comment text.
pub open spec fn needs_text(op: OpView) -> bool {
    op is CreateComment || op is CreateReply || op is UpdateComment
}

/// The debug command that the arguments from index `start` on describe:
/// the options gathered, the operation defaulting to help, and comment
/// operations requiring a non-empty `--text`.
pub open spec fn parse_debug(args: Seq<Seq<char>>, start: int) -> Result<CmdView, Seq<char>> {
    match parse_from(args, start, empty_cmd()) {
        Err(e) => Err(e),
        Ok(st) => {
            let op = match st.op {
                Some(o) => o,
                None => OpView::Help,
            };
            if needs_text(op) && st.text is None {
                Err("--text is required for this operation"@)
            } else if needs_text(op) && st.text == Some(Seq::<char>::empty()) {
                Err("--text cannot be empty"@)
            } else {
                Ok(CmdView { op: Some(op), ..st })
            }
        },
    }
}

/// A keyword that takes a value, followed by its value (and, where `with_text`,
/// by `--text t`), is read as the operation that `valued_op` builds.
#[verifier::rlimit(60)]
proof fn lemma_valued_keyword_parse(k: Seq<char>, v: Seq<char>, t: Seq<char>, with_text: bool)
    requires
        valued_op(k, Seq::empty()) is Some,
    ensures
        !with_text ==> parse_from(seq![k, v], 0, empty_cmd()) == Ok::<CmdView, Seq<char>>(
            CmdView { op: valued_op(k, v), ..empty_cmd() },
        ),
        with_text ==> parse_from(seq![k, v, "--text"@, t], 0, empty_cmd()) == Ok::<
            CmdView,
            Seq<char>,
        >(CmdView { op: valued_op(k, v), text: Some(t), ..empty_cmd() }),
{
    reveal_strlit("--text");
    reveal_strlit("--json");
    reveal_strlit("--verbose");
    reveal_strlit("-v");
    reveal_strlit("--parent-id");
    reveal_strlit("--assignee");
    reveal_strlit("--assigned-commenter");
    reveal_strlit("--token");
    reveal_strlit("workspaces");
    reveal_strlit("auth-status");
    reveal_strlit("lists");
    reveal_strlit("tasks");
    reveal_strlit("docs");
    reveal_strlit("spaces");
    reveal_strlit("folders");
    reveal_strlit("task");
    reveal_strlit("explore");
    reveal_strlit("comments");
    reveal_strlit("create-comment");
    reveal_strlit("create-reply");
    reveal_strlit("update-comment");
    assert(k.len() > 0 && k[0] != '-' && k[0] != 'w' && k[0] != 'a' && k[0] != 'l');
    assert("--json"@[0] == '-' && "--verbose"@[0] == '-' && "-v"@[0] == '-');
    assert("--text"@[0] == '-' && "--parent-id"@[0] == '-' && "--assignee"@[0] == '-');
    assert("--assigned-commenter"@[0] == '-' && "--token"@[0] == '-');
    assert("workspaces"@[0] == 'w' && "auth-status"@[0] == 'a' && "lists"@[0] == 'l');
    assert(!is_value_option(k));
    assert(k != "--json"@ && k != "--verbose"@ && k != "-v"@);
    assert(k != "workspaces"@ && k != "auth-status"@ && k != "lists"@);
    assert("--text"@[2] == 't' && "--json"@[2] == 'j' && "--verbose"@[2] == 'v');
    assert("--text"@.len() != "-v"@.len());
    if with_text {
        let args = seq![k, v, "--text"@, t];
        let st = CmdView { op: valued_op(k, v), ..empty_cmd() };
        assert(parse_from(args, 0, empty_cmd()) == parse_from(args, 2, st));
        assert(parse_from(args, 2, st) == parse_from(args, 4, with_option(st, "--text"@, t)));
        assert(parse_from(args, 4, with_option(st, "--text"@, t)) == Ok::<CmdView, Seq<char>>(
            with_option(st, "--text"@, t),
        ));
    } else {
        let args = seq![k, v];
        let st = CmdView { op: valued_op(k, v), ..empty_cmd() };
        assert(parse_from(args, 0, empty_cmd()) == parse_from(args, 2, st));
        assert(parse_from(args, 2, st) == Ok::<CmdView, Seq<char>>(st));
    }
}

/// `clickdown debug <keyword> <value>`: each keyword that takes a value
/// names its own operation, with the value as its id (`spaces W1` lists the
/// spaces of workspace `W1`, `folders S1` the folders of space `S1`, ...);
/// the comment operations also take their non-empty `--text`.
#[verifier::rlimit(60)]
pub proof fn lemma_keyword_operations(v: Seq<char>, t: Seq<char>)
    requires
        t.len() > 0,
    ensures
        parse_debug(seq!["tasks"@, v], 0) == Ok::<CmdView, Seq<char>>(
            CmdView { op: Some(OpView::Tasks(v)), ..empty_cmd() },
        ),
        parse_debug(seq!["docs"@, v], 0) == Ok::<CmdView, Seq<char>>(
            CmdView { op: Some(OpView::Docs(v)), ..empty_cmd() },
        ),
        parse_debug(seq!["spaces"@, v], 0) == Ok::<CmdView, Seq<char>>(
            CmdView { op: Some(OpView::Spaces(v)), ..empty_cmd() },
        ),
        parse_debug(seq!["folders"@, v], 0) == Ok::<CmdView, Seq<char>>(
            CmdView { op: Some(OpView::Folders(v)), ..empty_cmd() },
        ),
        parse_debug(seq!["task"@, v], 0) == Ok::<CmdView, Seq<char>>(
            CmdView { op: Some(OpView::Task(v)), ..empty_cmd() },
        ),
        parse_debug(seq!["explore"@, v], 0) == Ok::<CmdView, Seq<char>>(
            CmdView { op: Some(OpView::Explore(v)), ..empty_cmd() },
        ),
        parse_debug(seq!["comments"@, v], 0) == Ok::<CmdView, Seq<char>>(
            CmdView { op: Some(OpView::Comments(v)), ..empty_cmd() },
        ),
        parse_debug(seq!["create-comment"@, v, "--text"@, t], 0) == Ok::<CmdView, Seq<char>>(
            CmdView { op: Some(OpView::CreateComment(v)), text: Some(t), ..empty_cmd() },
        ),
        parse_debug(seq!["create-reply"@, v, "--text"@, t], 0) == Ok::<CmdView, Seq<char>>(
            CmdView { op: Some(OpView::CreateReply(v)), text: Some(t), ..empty_cmd() },
        ),
        parse_debug(seq!["update-comment"@, v, "--text"@, t], 0) == Ok::<CmdView, Seq<char>>(
            CmdView { op: Some(OpView::UpdateComment(v)), text: Some(t), ..empty_cmd() },
        ),
{
    reveal_strlit("tasks");
    reveal_strlit("docs");
    reveal_strlit("spaces");
    reveal_strlit("folders");
    reveal_strlit("task");
    reveal_strlit("explore");
    reveal_strlit("comments");
    reveal_strlit("create-comment");
    reveal_strlit("create-reply");
    reveal_strlit("update-comment");
    assert("tasks"@[0] == 't' && "docs"@[0] == 'd' && "spaces"@[0] == 's' && "folders"@[0] == 'f');
    assert("task"@[0] == 't' && "explore"@[0] == 'e' && "comments"@[0] == 'c');
    assert("create-comment"@[0] == 'c' && "create-reply"@[0] == 'c' && "update-comment"@[0] == 'u');
    assert("comments"@[1] == 'o' && "create-comment"@[1] == 'r' && "create-reply"@[1] == 'r');
    assert("create-comment"@[7] == 'c' && "create-reply"@[7] == 'r');
    assert("task"@.len() == 4 && "tasks"@.len() == 5);
    lemma_valued_keyword_parse("tasks"@, v, Seq::empty(), false);
    lemma_valued_keyword_parse("docs"@, v, Seq::empty(), false);
    lemma_valued_keyword_parse("spaces"@, v, Seq::empty(), false);
    lemma_valued_keyword_parse("folders"@, v, Seq::empty(), false);
    lemma_valued_keyword_parse("task"@, v, Seq::empty(), false);
    lemma_valued_keyword_parse("explore"@, v, Seq::empty(), false);
    lemma_valued_keyword_parse("comments"@, v, Seq::empty(), false);
    lemma_valued_keyword_parse("create-comment"@, v, t, true);
    lemma_valued_keyword_parse("create-reply"@, v, t, true);
    lemma_valued_keyword_parse("update-comment"@, v, t, true);
}

/// The arguments as plain values.
pub open spec fn args_view(args: Seq<String>) -> Seq<Seq<char>> {
    args.map_values(|s: String| s@)
}

/// The view of an optional string.
pub open spec fn opt_view(o: Option<String>) -> Option<Seq<char>> {
    match o {
        Some(s) => Some(s@),
        None => None,
    }
}

/// The view of a parsed command.
pub open spec fn command_view(c: DebugCommand) -> CmdView {
    CmdView {
        op: Some(op_view(c.operation)),
        json: c.json,
        verbose: c.verbose,
        token: opt_view(c.token_override),
        text: opt_view(c.text),
        parent_id: opt_view(c.parent_id),
        assignee: opt_view(c.assignee),
        assigned_commenter: opt_view(c.assigned_commenter),
    }
}

/// A copy of an optional string.
fn clone_opt(o: &Option<String>) -> (r: Option<String>)
    ensures
        opt_view(r) == opt_view(*o),
{
    match o {
        Some(s) => Some(s.clone()),
        None => None,
    }
}

/// The operation for a keyword that takes one value.
fn make_valued_op(word: &str, value: String) -> (op: Option<DebugOperation>)
    ensures
        match op {
            Some(o) => valued_op(word@, value@) == Some(op_view(o)),
            None => valued_op(word@, value@) is None,
        },
{
    if str_eq(word, "tasks") {
        Some(DebugOperation::Tasks { list_id: value })
    } else if str_eq(word, "docs") {
        Some(DebugOperation::Docs { query: value })
    } else if str_eq(word, "spaces") {
        Some(DebugOperation::Spaces { workspace_id: value })
    } else if str_eq(word, "folders") {
        Some(DebugOperation::Folders { space_id: value })
    } else if str_eq(word, "task") {
        Some(DebugOperation::Task { task_id: value })
    } else if str_eq(word, "explore") {
        Some(DebugOperation::Explore { workspace_id: value })
    } else if str_eq(word, "comments") {
        Some(DebugOperation::Comments { task_id: value })
    } else if str_eq(word, "create-comment") {
        Some(DebugOperation::CreateComment { task_id: value })
    } else if str_eq(word, "create-reply") {
        Some(DebugOperation::CreateReply { comment_id: value })
    } else if str_eq(word, "update-comment") {
        Some(DebugOperation::UpdateComment { comment_id: value })
    } else {
        None
    }
}

/// The message when an operation keyword has no value.
fn missing_value(word: &str) -> (s: String)
    ensures
        s@ == missing_value_message(word@),
{
    if str_eq(word, "tasks") {
        owned("tasks requires a list_id argument")
    } else if str_eq(word, "docs") {
        owned("docs requires a query argument")
    } else if str_eq(word, "spaces") {
        owned("spaces requires a workspace_id argument")
    } else if str_eq(word, "folders") {
        owned("folders requires a space_id argument")
    } else if str_eq(word, "task") {
        owned("task requires a task_id argument")
    } else if str_eq(word, "explore") {
        owned("explore requires a workspace_id argument")
    } else if str_eq(word, "comments") {
        owned("comments requires a task_id argument")
    } else if str_eq(word, "create-comment") {
        owned("create-comment requires a task_id argument")
    } else if str_eq(word, "create-reply") {
        owned("create-reply requires a comment_id argument")
    } else {
        owned("update-comment requires a comment_id argument")
    }
}

/// `prefix` followed by `s`.
fn concat(prefix: &str, s: &str) -> (r: String)
    ensures
        r@ == prefix@ + s@,
{
    let mut r = owned(prefix);
    push_str(&mut r, s);
    r
}

/// The options being gathered.
struct Gathered {
    op: Option<DebugOperation>,
    json: bool,
    verbose: bool,
    token: Option<String>,
    text: Option<String>,
    parent_id: Option<String>,
    assignee: Option<String>,
    assigned_commenter: Option<String>,
}

/// The view of the options gathered.
spec fn gathered_view(g: Gathered) -> CmdView {
    CmdView {
        op: match g.op {
            Some(o) => Some(op_view(o)),
            None => None,
        },
        json: g.json,
        verbose: g.verbose,
        token: opt_view(g.token),
        text: opt_view(g.text),
        parent_id: opt_view(g.parent_id),
        assignee: opt_view(g.assignee),
        assigned_commenter: opt_view(g.assigned_commenter),
    }
}

/// Reads the debug arguments from index `start` on.
fn parse_debug_from(args: &[String], start: usize) -> (r: Result<DebugCommand, String>)
    requires
        start <= args@.len(),
    ensures
        match r {
            Ok(c) => parse_debug(args_view(args@), start as int) == Ok::<CmdView, Seq<char>>(
                command_view(c),
            ),
            Err(e) => parse_debug(args_view(args@), start as int) == Err::<CmdView, Seq<char>>(
                e@,
            ),
        },
{
    let ghost av = args_view(args@);
    let mut g = Gathered {
        op: None,
        json: false,
        verbose: false,
        token: None,
        text: None,
        parent_id: None,
        assignee: None,
        assigned_commenter: None,
    };
    let n = args.len();
    let mut i: usize = start;
    assert(gathered_view(g) == empty_cmd());
    while i < n
        invariant
            n == args@.len(),
            av == args_view(args@),
            start <= i,
            i <= n + 1,
            parse_from(av, start as int, empty_cmd()) == parse_from(
                av,
                i as int,
                gathered_view(g),
            ),
        decreases n + 1 - i,
    {
        let a = args[i].as_str();
        let ghost st = gathered_view(g);
        assert(av[i as int] == a@);
        if str_eq(a, "--json") {
            g.json = true;
            i = i + 1;
        } else if str_eq(a, "--verbose") || str_eq(a, "-v") {
            g.verbose = true;
            i = i + 1;
        } else if str_eq(a, "--text") || str_eq(a, "--parent-id") || str_eq(a, "--assignee")
            || str_eq(a, "--assigned-commenter") || str_eq(a, "--token") {
            if i + 1 >= n {
                return Err(concat(a, " requires a value"));
            }
            let v = args[i + 1].clone();
            assert(av[i + 1] == v@);
            if str_eq(a, "--text") {
                g.text = Some(v);
            } else if str_eq(a, "--parent-id") {
                g.parent_id = Some(v);
            } else if str_eq(a, "--assignee") {
                g.assignee = Some(v);
            } else if str_eq(a, "--assigned-commenter") {
                g.assigned_commenter = Some(v);
            } else {
                g.token = Some(v);
            }
            assert(gathered_view(g) == with_option(st, a@, av[i + 1]));
            i = i + 2;
        } else if str_eq(a, "workspaces") || str_eq(a, "auth-status") {
            if g.op.is_some() {
                return Err(owned("Multiple operations specified"));
            }
            if str_eq(a, "workspaces") {
                g.op = Some(DebugOperation::Workspaces);
            } else {
                g.op = Some(DebugOperation::AuthStatus);
            }
            i = i + 1;
        } else if str_eq(a, "lists") {
            if g.op.is_some() {
                return Err(owned("Multiple operations specified"));
            }
            if i + 1 >= n {
                return Err(owned("lists requires a folder_id or space_id argument"));
            }
            let in_space = i + 2 < n && str_eq(args[i + 2].as_str(), "--in-space");
            assert(in_space == (i + 2 < av.len() && av[i + 2] == "--in-space"@));
            let id = args[i + 1].clone();
            assert(av[i + 1] == id@);
            g.op = Some(DebugOperation::Lists { id, in_space });
            if in_space {
                i = i + 3;
            } else {
                i = i + 2;
            }
        } else if make_valued_op(a, String::new()).is_some() {
            if g.op.is_some() {
                return Err(owned("Multiple operations specified"));
            }
            if i + 1 >= n {
                return Err(missing_value(a));
            }
            let v = args[i + 1].clone();
            assert(av[i + 1] == v@);
            g.op = make_valued_op(a, v);
            i = i + 2;
        } else if str_eq(a, "--help") || str_eq(a, "-h") {
            g.op = Some(DebugOperation::Help);
            i = i + 1;
        } else {
            let dash = has_prefix(a, "-");
            proof {
                reveal_strlit("-");
                assert("-"@ =~= seq!['-']);
            }
            if g.op.is_none() && !dash {
                return Err(concat("Unknown operation: ", a));
            } else if dash {
                return Err(concat("Unknown option: ", a));
            }
            i = i + 1;
        }
    }
    proof {
        assert(parse_from(av, i as int, gathered_view(g)) == Ok::<CmdView, Seq<char>>(
            gathered_view(g),
        ));
    }
    let op = match g.op {
        Some(o) => o,
        None => DebugOperation::Help,
    };
    let needs = match &op {
        DebugOperation::CreateComment { .. } | DebugOperation::CreateReply { .. }
        | DebugOperation::UpdateComment { .. } => true,
        _ => false,
    };
    assert(needs == needs_text(op_view(op)));
    if needs {
        match &g.text {
            None => {
                return Err(owned("--text is required for this operation"));
            },
            Some(t) => {
                if t.as_str().is_empty() {
                    assert(t@ =~= Seq::<char>::empty());
                    return Err(owned("--text cannot be empty"));
                }
            },
        }
    }
    let cmd = DebugCommand {
        operation: op,
        json: g.json,
        verbose: g.verbose,
        token_override: g.token,
        text: g.text,
        parent_id: g.parent_id,
        assignee: g.assignee,
        assigned_commenter: g.assigned_commenter,
    };
    proof {
        if needs {
            assert(cmd.text matches Some(t) && t@.len() > 0);
            assert(opt_view(cmd.text) != Some(Seq::<char>::empty()));
        }
    }
    Ok(cmd)
}

/// Parses the arguments of `clickdown debug ...` (those after `debug`).
pub fn parse_debug_command(args: &[String]) -> (r: Result<DebugCommand, String>)
    ensures
        match r {
            Ok(c) => parse_debug(args_view(args@), 0) == Ok::<CmdView, Seq<char>>(
                command_view(c),
            ),
            Err(e) => parse_debug(args_view(args@), 0) == Err::<CmdView, Seq<char>>(e@),
        },
{
    parse_debug_from(args, 0)
}

/// Parses the whole command line (program name first): no subcommand or a
/// help flag runs the interface, `debug` parses a debug command, anything
/// else is an error.
pub fn parse_args(args: &Vec<String>) -> (r: Result<CliArgs, String>)
    ensures
        args@.len() < 2 ==> (r matches Ok(c) && c.debug_command is None),
        args@.len() >= 2 && args@[1]@ == "debug"@ ==> match r {
            Ok(c) => c.debug_command matches Some(d) && parse_debug(args_view(args@), 2) == Ok::<
                CmdView,
                Seq<char>,
            >(command_view(d)),
            Err(e) => parse_debug(args_view(args@), 2) == Err::<CmdView, Seq<char>>(e@),
        },
        args@.len() >= 2 && args@[1]@ != "debug"@ && (args@[1]@ == "--help"@ || args@[1]@
            == "-h"@ || args@[1]@ == "help"@) ==> (r matches Ok(c) && c.debug_command is None),
        args@.len() >= 2 && args@[1]@ != "debug"@ && args@[1]@ != "--help"@ && args@[1]@
            != "-h"@ && args@[1]@ != "help"@ ==> (r matches Err(e) && e@ == "Unknown subcommand: "@
            + args@[1]@),
{
    if args.len() < 2 {
        return Ok(CliArgs { debug_command: None });
    }
    let sub = args[1].as_str();
    if str_eq(sub, "debug") {
        let ghost av = args_view(args@);
        match parse_debug_from(args.as_slice(), 2) {
            Ok(cmd) => Ok(CliArgs { debug_command: Some(cmd) }),
            Err(e) => Err(e),
        }
    } else if str_eq(sub, "--help") || str_eq(sub, "-h") || str_eq(sub, "help") {
        Ok(CliArgs { debug_command: None })
    } else {
        Err(concat("Unknown subcommand: ", sub))
    }
}

} // verus!
