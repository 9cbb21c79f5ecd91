//! Tasks, their statuses, and how task lists are filtered and ordered.
use vstd::prelude::*;

use crate::models::user::User;
use crate::query::{bool_text, query_string, QueryPair, QueryParams};
use crate::sorting::{stable_sort_by_rank, stably_ordered};
use crate::text::{int_decimal, owned, spec_to_lowercase, str_eq, to_lowercase};

verus! {

/// A task description: plain text, or rich text with HTML and/or markdown.
#[derive(Debug, Clone, PartialEq)]
pub enum TaskDescription {
    Plain(String),
    Rich { html: Option<String>, markdown: Option<String>, text: Option<String> },
}

/// The text that a description shows: markdown, else text, else HTML, else
/// nothing.
pub open spec fn description_text(d: TaskDescription) -> Seq<char> {
    match d {
        TaskDescription::Plain(s) => s@,
        TaskDescription::Rich { html, markdown, text } => match markdown {
            Some(m) => m@,
            None => match text {
                Some(t) => t@,
                None => match html {
                    Some(h) => h@,
                    None => Seq::empty(),
                },
            },
        },
    }
}

impl TaskDescription {
    /// The description as a string, preferring markdown, then text, then HTML.
    pub fn as_text(&self) -> (s: String)
        ensures
            s@ == description_text(*self),
    {
        match self {
            TaskDescription::Plain(s) => s.clone(),
            TaskDescription::Rich { html, markdown, text } => match markdown {
                Some(m) => m.clone(),
                None => match text {
                    Some(t) => t.clone(),
                    None => match html {
                        Some(h) => h.clone(),
                        None => {
                            let e = owned("");
                            proof {
                                reveal_strlit("");
                            }
                            e
                        },
                    },
                },
            },
        }
    }
}

/// Task content: plain text or HTML.
#[derive(Debug, Clone, PartialEq)]
pub enum TaskContent {
    Plain(String),
    Rich { html: Option<String> },
}

/// The status of a task.
#[derive(Debug, Clone, PartialEq)]
pub struct TaskStatus {
    pub id: Option<String>,
    pub status: String,
    pub color: Option<String>,
    pub type_field: Option<String>,
    pub orderindex: Option<u32>,
    pub status_group: Option<String>,
}

/// A task tag.
#[derive(Debug, Clone, PartialEq)]
pub struct Tag {
    pub id: Option<String>,
    pub name: String,
    pub color: Option<String>,
    pub tag_fg: Option<String>,
    pub tag_bg: Option<String>,
    pub creator: Option<i64>,
}

/// A task linked to another one.
#[derive(Debug, Clone, PartialEq)]
pub struct LinkedTask {
    pub id: Option<String>,
    pub task_id: Option<String>,
    pub link_id: Option<String>,
    pub name: Option<String>,
    pub status: Option<String>,
    pub date_created: Option<String>,
    pub userid: Option<String>,
    pub workspace_id: Option<String>,
}

/// A reference to a task (a parent task).
#[derive(Debug, Clone, PartialEq)]
pub struct TaskReference {
    pub id: String,
    pub name: Option<String>,
}

/// A priority level.
#[derive(Debug, Clone, PartialEq)]
pub struct Priority {
    pub priority: String,
    pub color: Option<String>,
}

/// A file attached to a task.
#[derive(Debug, Clone, PartialEq)]
pub struct Attachment {
    pub id: String,
    pub version: Option<i64>,
    pub date: Option<i64>,
    pub title: Option<String>,
    pub url: Option<String>,
    pub mime_type: Option<String>,
    pub extension: Option<String>,
    pub thumbnail_small: Option<String>,
    pub thumbnail_large: Option<String>,
}

/// A reference to a list.
#[derive(Debug, Clone, PartialEq)]
pub struct ListReference {
    pub id: String,
    pub name: Option<String>,
    pub access: Option<bool>,
}

/// A reference to a folder.
#[derive(Debug, Clone, PartialEq)]
pub struct FolderReference {
    pub id: String,
    pub name: Option<String>,
    pub hidden: Option<bool>,
    pub access: Option<bool>,
}

/// A reference to a project (a folder, in API responses).
#[derive(Debug, Clone, PartialEq)]
pub struct ProjectReference {
    pub id: String,
    pub name: Option<String>,
    pub hidden: Option<bool>,
    pub access: Option<bool>,
}

/// A reference to a space.
#[derive(Debug, Clone, PartialEq)]
pub struct SpaceReference {
    pub id: String,
    pub name: Option<String>,
    pub access: Option<bool>,
}

/// Sharing settings of a task.
#[derive(Debug, Clone, PartialEq)]
pub struct TaskSharing {
    pub public: Option<bool>,
    pub public_share_expires_on: Option<i64>,
    pub public_fields: Vec<String>,
    pub token: Option<String>,
    pub seo_optimized: Option<bool>,
}

/// A ClickUp task: the fields that the library reads and shows.
#[derive(Debug, Clone, PartialEq)]
pub struct Task {
    pub id: String,
    pub custom_id: Option<String>,
    pub custom_item_id: Option<i32>,
    pub name: String,
    pub text_content: Option<String>,
    pub description: Option<TaskDescription>,
    pub markdown_description: Option<String>,
    pub status: Option<TaskStatus>,
    pub orderindex: Option<String>,
    pub content: Option<TaskContent>,
    pub created_at: Option<i64>,
    pub updated_at: Option<i64>,
    pub closed_at: Option<i64>,
    pub done_at: Option<i64>,
    pub archived: Option<bool>,
    pub creator: Option<User>,
    pub assignees: Vec<User>,
    pub group_assignees: Vec<User>,
    pub watchers: Vec<User>,
    pub tags: Vec<Tag>,
    pub parent: Option<TaskReference>,
    pub top_level_parent: Option<TaskReference>,
    pub priority: Option<Priority>,
    pub due_date: Option<i64>,
    pub start_date: Option<i64>,
    pub points: Option<i32>,
    pub attachments: Vec<Attachment>,
    pub linked_tasks: Vec<LinkedTask>,
    pub list: Option<ListReference>,
    pub folder: Option<FolderReference>,
    pub space: Option<SpaceReference>,
    pub project: Option<ProjectReference>,
    pub url: Option<String>,
    pub team_id: Option<String>,
    pub sharing: Option<TaskSharing>,
    pub permission_level: Option<String>,
    pub time_estimate: Option<i64>,
    pub time_spent: Option<i64>,
}

impl Default for Task {
    fn default() -> (t: Self)
        ensures
            t.id@ == Seq::<char>::empty(),
            t.name@ == Seq::<char>::empty(),
            t.status is None,
            t.updated_at is None,
            t.priority is None,
            t.assignees@.len() == 0,
    {
        Task {
            id: String::new(),
            custom_id: None,
            custom_item_id: None,
            name: String::new(),
            text_content: None,
            description: None,
            markdown_description: None,
            status: None,
            orderindex: None,
            content: None,
            created_at: None,
            updated_at: None,
            closed_at: None,
            done_at: None,
            archived: None,
            creator: None,
            assignees: Vec::new(),
            group_assignees: Vec::new(),
            watchers: Vec::new(),
            tags: Vec::new(),
            parent: None,
            top_level_parent: None,
            priority: None,
            due_date: None,
            start_date: None,
            points: None,
            attachments: Vec::new(),
            linked_tasks: Vec::new(),
            list: None,
            folder: None,
            space: None,
            project: None,
            url: None,
            team_id: None,
            sharing: None,
            permission_level: None,
            time_estimate: None,
            time_spent: None,
        }
    }
}

/// Tasks returned by the API.
#[derive(Debug, Clone)]
pub struct TasksResponse {
    pub tasks: Vec<Task>,
}

// ---------------------------------------------------------------------------
// Filters
// ---------------------------------------------------------------------------

/// Parameters for fetching tasks.
#[derive(Debug, Clone)]
pub struct TaskFilters {
    pub archived: Option<bool>,
    pub page: Option<u32>,
    pub limit: Option<u32>,
    pub order_by: Option<String>,
    pub reverse: Option<bool>,
    pub subtasks: Option<bool>,
    pub statuses: Vec<String>,
    pub assignees: Vec<i64>,
    pub include_markdown_description: Option<bool>,
    /// Only tasks updated after this timestamp (milliseconds).
    pub date_updated_gt: Option<i64>,
    /// Only tasks due before this timestamp (milliseconds).
    pub due_date_lt: Option<i64>,
    /// Include closed tasks.
    pub include_closed: Option<bool>,
}

impl Default for TaskFilters {
    fn default() -> (f: Self)
        ensures
            f.archived is None,
            f.page is None,
            f.limit is None,
            f.order_by is None,
            f.reverse is None,
            f.subtasks is None,
            f.statuses@.len() == 0,
            f.assignees@.len() == 0,
            f.include_markdown_description is None,
            f.date_updated_gt is None,
            f.due_date_lt is None,
            f.include_closed is None,
    {
        TaskFilters {
            archived: None,
            page: None,
            limit: None,
            order_by: None,
            reverse: None,
            subtasks: None,
            statuses: Vec::new(),
            assignees: Vec::new(),
            include_markdown_description: None,
            date_updated_gt: None,
            due_date_lt: None,
            include_closed: None,
        }
    }
}

/// `ps` with `key=<true|false>` added when `v` is given.
pub open spec fn with_opt_bool(ps: Seq<QueryPair>, key: Seq<char>, v: Option<bool>) -> Seq<
    QueryPair,
> {
    match v {
        Some(b) => ps.push((key, bool_text(b))),
        None => ps,
    }
}

/// `ps` with `key=<decimal>` added when `v` is given.
pub open spec fn with_opt_int(ps: Seq<QueryPair>, key: Seq<char>, v: Option<int>) -> Seq<
    QueryPair,
> {
    match v {
        Some(i) => ps.push((key, int_decimal(i))),
        None => ps,
    }
}

/// `ps` with `key=value` added when a value is given.
pub open spec fn with_opt_text(ps: Seq<QueryPair>, key: Seq<char>, v: Option<String>) -> Seq<
    QueryPair,
> {
    match v {
        Some(s) => ps.push((key, s@)),
        None => ps,
    }
}

/// `Some(v)` as an integer.
pub open spec fn opt_u32_int(v: Option<u32>) -> Option<int> {
    match v {
        Some(x) => Some(x as int),
        None => None,
    }
}

/// `Some(v)` as an integer.
pub open spec fn opt_i64_int(v: Option<i64>) -> Option<int> {
    match v {
        Some(x) => Some(x as int),
        None => None,
    }
}

/// The query parameters of a task filter, in the order the API receives
/// them: archived, page, limit, order_by, reverse, subtasks, `statuses[]`
/// for each status, `assignees[]` for each assignee,
/// include_markdown_description, date_updated_gt, due_date_lt, include_closed.
pub open spec fn task_filter_params(f: TaskFilters) -> Seq<QueryPair> {
    let p1 = with_opt_bool(Seq::empty(), "archived"@, f.archived);
    let p2 = with_opt_int(p1, "page"@, opt_u32_int(f.page));
    let p3 = with_opt_int(p2, "limit"@, opt_u32_int(f.limit));
    let p4 = with_opt_text(p3, "order_by"@, f.order_by);
    let p5 = with_opt_bool(p4, "reverse"@, f.reverse);
    let p6 = with_opt_bool(p5, "subtasks"@, f.subtasks);
    let p7 = p6 + f.statuses@.map_values(|s: String| ("statuses"@ + seq!['[', ']'], s@));
    let p8 = p7 + f.assignees@.map_values(
        |a: i64| ("assignees"@ + seq!['[', ']'], int_decimal(a as int)),
    );
    let p9 = with_opt_bool(p8, "include_markdown_description"@, f.include_markdown_description);
    let p10 = with_opt_int(p9, "date_updated_gt"@, opt_i64_int(f.date_updated_gt));
    let p11 = with_opt_int(p10, "due_date_lt"@, opt_i64_int(f.due_date_lt));
    with_opt_bool(p11, "include_closed"@, f.include_closed)
}

/// `b` starts with `a`.
pub open spec fn extends(b: Seq<QueryPair>, a: Seq<QueryPair>) -> bool {
    &&& a.len() <= b.len()
    &&& forall|i: int| 0 <= i < a.len() ==> #[trigger] b[i] == a[i]
}

/// Appending keeps what a list of pairs starts with.
proof fn lemma_extends_append(a: Seq<QueryPair>, b: Seq<QueryPair>, t: Seq<QueryPair>)
    requires
        extends(b, a),
    ensures
        extends(b + t, a),
{
    assert forall|i: int| 0 <= i < a.len() implies #[trigger] (b + t)[i] == a[i] by {
        assert((b + t)[i] == b[i]);
    }
}

/// What a list starts with stays in it: an item of `a` is in `b`.
proof fn lemma_extends_contains(b: Seq<QueryPair>, a: Seq<QueryPair>, k: int)
    requires
        extends(b, a),
        0 <= k < a.len(),
    ensures
        b.contains(a[k]),
{
    assert(b[k] == a[k]);
}

/// Each optional step only adds at the end.
proof fn lemma_opt_steps_extend(ps: Seq<QueryPair>, key: Seq<char>, b: Option<bool>, n: Option<int>, o: Option<String>)
    ensures
        extends(with_opt_bool(ps, key, b), ps),
        extends(with_opt_int(ps, key, n), ps),
        extends(with_opt_text(ps, key, o), ps),
{
    match b {
        Some(x) => {
            assert forall|i: int| 0 <= i < ps.len() implies #[trigger] with_opt_bool(ps, key, b)[i] == ps[i] by {
                assert(ps.push((key, bool_text(x)))[i] == ps[i]);
            }
        },
        None => {},
    }
    match n {
        Some(x) => {
            assert forall|i: int| 0 <= i < ps.len() implies #[trigger] with_opt_int(ps, key, n)[i] == ps[i] by {
                assert(ps.push((key, int_decimal(x)))[i] == ps[i]);
            }
        },
        None => {},
    }
    match o {
        Some(x) => {
            assert forall|i: int| 0 <= i < ps.len() implies #[trigger] with_opt_text(ps, key, o)[i] == ps[i] by {
                assert(ps.push((key, x@))[i] == ps[i]);
            }
        },
        None => {},
    }
}

/// `extends` is transitive.
proof fn lemma_extends_trans(c: Seq<QueryPair>, b: Seq<QueryPair>, a: Seq<QueryPair>)
    requires
        extends(c, b),
        extends(b, a),
    ensures
        extends(c, a),
{
    assert forall|i: int| 0 <= i < a.len() implies #[trigger] c[i] == a[i] by {
        assert(c[i] == b[i]);
    }
}

/// Each filter that is set is sent under its own API key: `archived`,
/// `page`, `limit`, `order_by`, `reverse`, `subtasks`,
/// `include_markdown_description`, `date_updated_gt`, `due_date_lt` and
/// `include_closed` with their values (booleans as `true`/`false`, numbers
/// in decimal), each status as `statuses[]` and each assignee as
/// `assignees[]`.
#[verifier::rlimit(40)]
pub proof fn lemma_filters_sent_under_their_keys(f: TaskFilters)
    ensures
        f.archived matches Some(b) ==> task_filter_params(f).contains(
            ("archived"@, if b { "true"@ } else { "false"@ }),
        ),
        f.reverse matches Some(b) ==> task_filter_params(f).contains(
            ("reverse"@, if b { "true"@ } else { "false"@ }),
        ),
        f.subtasks matches Some(b) ==> task_filter_params(f).contains(
            ("subtasks"@, if b { "true"@ } else { "false"@ }),
        ),
        f.include_markdown_description matches Some(b) ==> task_filter_params(f).contains(
            ("include_markdown_description"@, if b { "true"@ } else { "false"@ }),
        ),
        f.include_closed matches Some(b) ==> task_filter_params(f).contains(
            ("include_closed"@, if b { "true"@ } else { "false"@ }),
        ),
        f.page matches Some(v) ==> task_filter_params(f).contains(("page"@, int_decimal(v as int))),
        f.limit matches Some(v) ==> task_filter_params(f).contains(("limit"@, int_decimal(v as int))),
        f.date_updated_gt matches Some(v) ==> task_filter_params(f).contains(("date_updated_gt"@, int_decimal(v as int))),
        f.due_date_lt matches Some(v) ==> task_filter_params(f).contains(("due_date_lt"@, int_decimal(v as int))),
        f.order_by matches Some(o) ==> task_filter_params(f).contains(("order_by"@, o@)),
        forall|i: int|
            0 <= i < f.statuses@.len() ==> task_filter_params(f).contains(
                ("statuses[]"@, (#[trigger] f.statuses@[i])@),
            ),
        forall|i: int|
            0 <= i < f.assignees@.len() ==> task_filter_params(f).contains(
                ("assignees[]"@, int_decimal((#[trigger] f.assignees@[i]) as int)),
            ),
{
    reveal_strlit("true");
    reveal_strlit("false");
    reveal_strlit("statuses[]");
    reveal_strlit("assignees[]");
    reveal_strlit("statuses");
    reveal_strlit("assignees");
    assert("statuses"@ + seq!['[', ']'] =~= "statuses[]"@);
    assert("assignees"@ + seq!['[', ']'] =~= "assignees[]"@);
    assert(bool_text(true) =~= "true"@);
    assert(bool_text(false) =~= "false"@);
    let p0 = Seq::<QueryPair>::empty();
    let p1 = with_opt_bool(p0, "archived"@, f.archived);
    let p2 = with_opt_int(p1, "page"@, opt_u32_int(f.page));
    let p3 = with_opt_int(p2, "limit"@, opt_u32_int(f.limit));
    let p4 = with_opt_text(p3, "order_by"@, f.order_by);
    let p5 = with_opt_bool(p4, "reverse"@, f.reverse);
    let p6 = with_opt_bool(p5, "subtasks"@, f.subtasks);
    let st = f.statuses@.map_values(|s: String| ("statuses"@ + seq!['[', ']'], s@));
    let p7 = p6 + st;
    let asg = f.assignees@.map_values(|a: i64| ("assignees"@ + seq!['[', ']'], int_decimal(a as int)));
    let p8 = p7 + asg;
    let p9 = with_opt_bool(p8, "include_markdown_description"@, f.include_markdown_description);
    let p10 = with_opt_int(p9, "date_updated_gt"@, opt_i64_int(f.date_updated_gt));
    let p11 = with_opt_int(p10, "due_date_lt"@, opt_i64_int(f.due_date_lt));
    let ps = with_opt_bool(p11, "include_closed"@, f.include_closed);
    assert(ps == task_filter_params(f));
    lemma_opt_steps_extend(p0, "archived"@, f.archived, None, None);
    lemma_opt_steps_extend(p1, "page"@, None, opt_u32_int(f.page), None);
    lemma_opt_steps_extend(p2, "limit"@, None, opt_u32_int(f.limit), None);
    lemma_opt_steps_extend(p3, "order_by"@, None, None, f.order_by);
    lemma_opt_steps_extend(p4, "reverse"@, f.reverse, None, None);
    lemma_opt_steps_extend(p5, "subtasks"@, f.subtasks, None, None);
    assert(extends(p6, p6));
    lemma_extends_append(p6, p6, st);
    assert(extends(p7, p7));
    lemma_extends_append(p7, p7, asg);
    lemma_opt_steps_extend(p8, "include_markdown_description"@, f.include_markdown_description, None, None);
    lemma_opt_steps_extend(p9, "date_updated_gt"@, None, opt_i64_int(f.date_updated_gt), None);
    lemma_opt_steps_extend(p10, "due_date_lt"@, None, opt_i64_int(f.due_date_lt), None);
    lemma_opt_steps_extend(p11, "include_closed"@, f.include_closed, None, None);
    // Every later list starts with every earlier one.
    lemma_extends_trans(ps, p11, p10);
    lemma_extends_trans(ps, p10, p9);
    lemma_extends_trans(ps, p9, p8);
    lemma_extends_trans(ps, p8, p7);
    lemma_extends_trans(ps, p7, p6);
    lemma_extends_trans(ps, p6, p5);
    lemma_extends_trans(ps, p5, p4);
    lemma_extends_trans(ps, p4, p3);
    lemma_extends_trans(ps, p3, p2);
    lemma_extends_trans(ps, p2, p1);
    if f.archived is Some {
        lemma_extends_contains(ps, p1, p0.len() as int);
    }
    if f.page is Some {
        lemma_extends_contains(ps, p2, p1.len() as int);
    }
    if f.limit is Some {
        lemma_extends_contains(ps, p3, p2.len() as int);
    }
    if f.order_by is Some {
        lemma_extends_contains(ps, p4, p3.len() as int);
    }
    if f.reverse is Some {
        lemma_extends_contains(ps, p5, p4.len() as int);
    }
    if f.subtasks is Some {
        lemma_extends_contains(ps, p6, p5.len() as int);
    }
    if f.include_markdown_description is Some {
        lemma_extends_contains(ps, p9, p8.len() as int);
    }
    if f.date_updated_gt is Some {
        lemma_extends_contains(ps, p10, p9.len() as int);
    }
    if f.due_date_lt is Some {
        lemma_extends_contains(ps, p11, p10.len() as int);
    }
    if f.include_closed is Some {
        assert(ps[p11.len() as int] == ps.last());
        assert(ps.contains(ps[p11.len() as int]));
    }
    assert forall|i: int| 0 <= i < f.statuses@.len() implies ps.contains(
        ("statuses[]"@, (#[trigger] f.statuses@[i])@),
    ) by {
        assert(st[i] == ("statuses[]"@, f.statuses@[i]@));
        assert(p7[p6.len() + i] == st[i]);
        lemma_extends_contains(ps, p7, p6.len() + i);
    }
    assert forall|i: int| 0 <= i < f.assignees@.len() implies ps.contains(
        ("assignees[]"@, int_decimal((#[trigger] f.assignees@[i]) as int)),
    ) by {
        assert(asg[i] == ("assignees[]"@, int_decimal(f.assignees@[i] as int)));
        assert(p8[p7.len() + i] == asg[i]);
        lemma_extends_contains(ps, p8, p7.len() + i);
    }
}

impl TaskFilters {
    /// The filters as a URL query string (`?k=v&...`, or empty).
    pub fn to_query_string(&self) -> (q: String)
        ensures
            q@ == query_string(task_filter_params(*self)),
    {
        let mut params = QueryParams::new();
        params.add_opt_bool("archived", self.archived);
        params.add_opt_u32("page", self.page);
        params.add_opt_u32("limit", self.limit);
        params.add_opt_str("order_by", &self.order_by);
        params.add_opt_bool("reverse", self.reverse);
        params.add_opt_bool("subtasks", self.subtasks);
        params.add_all_str("statuses", &self.statuses);
        params.add_all_i64("assignees", &self.assignees);
        params.add_opt_bool("include_markdown_description", self.include_markdown_description);
        params.add_opt_i64("date_updated_gt", self.date_updated_gt);
        params.add_opt_i64("due_date_lt", self.due_date_lt);
        params.add_opt_bool("include_closed", self.include_closed);
        params.to_query_string()
    }
}

/// Body of a task-creation request.
#[derive(Debug, Clone)]
pub struct CreateTaskRequest {
    pub name: String,
    pub description: Option<String>,
    pub status: Option<String>,
    pub priority: Option<String>,
    pub assignees: Option<Vec<i64>>,
    pub due_date: Option<i64>,
}

/// Body of a task-update request.
#[derive(Debug, Clone)]
pub struct UpdateTaskRequest {
    pub name: Option<String>,
    pub description: Option<String>,
    pub status: Option<String>,
    pub priority: Option<String>,
    pub assignees: Option<Vec<i64>>,
    pub due_date: Option<i64>,
}

// ---------------------------------------------------------------------------
// Status groups and ordering
// ---------------------------------------------------------------------------

/// Sort rank of a status group: in-progress first, then to-do, then done,
/// then everything else.
#[derive(Debug, Clone, Copy, PartialEq, Eq, PartialOrd, Ord)]
pub enum StatusGroupPriority {
    InProgress,
    ToDo,
    Done,
    Fallback,
}

/// The numeric rank of a status group priority (1 = first).
pub open spec fn priority_rank(p: StatusGroupPriority) -> int {
    match p {
        StatusGroupPriority::InProgress => 1,
        StatusGroupPriority::ToDo => 2,
        StatusGroupPriority::Done => 3,
        StatusGroupPriority::Fallback => 4,
    }
}

impl StatusGroupPriority {
    /// The numeric rank (1 = first in a list).
    pub fn rank(&self) -> (r: u8)
        ensures
            r == priority_rank(*self),
    {
        match self {
            StatusGroupPriority::InProgress => 1,
            StatusGroupPriority::ToDo => 2,
            StatusGroupPriority::Done => 3,
            StatusGroupPriority::Fallback => 4,
        }
    }
}

/// The priority of an already-lowercased status group name.
pub open spec fn priority_of_lowercase(s: Seq<char>) -> StatusGroupPriority {
    if s == "in_progress"@ || s == "in progress"@ {
        StatusGroupPriority::InProgress
    } else if s == "todo"@ || s == "to_do"@ {
        StatusGroupPriority::ToDo
    } else if s == "done"@ || s == "complete"@ {
        StatusGroupPriority::Done
    } else {
        StatusGroupPriority::Fallback
    }
}

/// The priority of an optional status group name, compared case-insensitively.
pub open spec fn group_priority(group: Option<Seq<char>>) -> StatusGroupPriority {
    match group {
        Some(g) => priority_of_lowercase(spec_to_lowercase(g)),
        None => StatusGroupPriority::Fallback,
    }
}

/// The priority of an already-lowercased status group name.
pub fn priority_from_lowercase(lower: &str) -> (p: StatusGroupPriority)
    ensures
        p == priority_of_lowercase(lower@),
{
    if str_eq(lower, "in_progress") || str_eq(lower, "in progress") {
        StatusGroupPriority::InProgress
    } else if str_eq(lower, "todo") || str_eq(lower, "to_do") {
        StatusGroupPriority::ToDo
    } else if str_eq(lower, "done") || str_eq(lower, "complete") {
        StatusGroupPriority::Done
    } else {
        StatusGroupPriority::Fallback
    }
}

/// The sort priority of a status group (case-insensitive); unknown and
/// missing groups get `Fallback`.
pub fn get_status_group_priority(status_group: Option<&str>) -> (p: StatusGroupPriority)
    ensures
        p == group_priority(
            match status_group {
                Some(g) => Some(g@),
                None => None,
            },
        ),
{
    match status_group {
        Some(group) => {
            let lower = to_lowercase(group);
            priority_from_lowercase(lower.as_str())
        },
        None => StatusGroupPriority::Fallback,
    }
}

/// The status group name of a task, if it has one.
pub open spec fn task_status_group(t: Task) -> Option<Seq<char>> {
    match t.status {
        Some(s) => match s.status_group {
            Some(g) => Some(g@),
            None => None,
        },
        None => None,
    }
}

/// The rank a task is sorted by: its status group priority first, then its
/// update time (missing times count as the smallest possible).
pub open spec fn task_rank(t: Task) -> (i64, i64) {
    (
        priority_rank(group_priority(task_status_group(t))) as i64,
        match t.updated_at {
            Some(u) => u,
            None => i64::MIN,
        },
    )
}

/// The ranks of a list of tasks.
pub open spec fn task_ranks(tasks: Seq<Task>) -> Seq<(i64, i64)> {
    tasks.map_values(|t: Task| task_rank(t))
}

/// The sort key of a task (status priority, update time).
fn get_task_sort_key(task: &Task) -> (k: (i64, i64))
    ensures
        k == task_rank(*task),
{
    let p = match &task.status {
        Some(s) => match &s.status_group {
            Some(g) => get_status_group_priority(Some(g.as_str())),
            None => get_status_group_priority(None),
        },
        None => get_status_group_priority(None),
    };
    let updated = match task.updated_at {
        Some(u) => u,
        None => i64::MIN,
    };
    (p.rank() as i64, updated)
}

/// Orders tasks by status group (in progress, to do, done, others) and, within
/// a group, most recently updated first; tasks without an update time come
/// last in their group, and ties keep their input order.
pub fn sort_tasks(tasks: Vec<Task>) -> (sorted: Vec<Task>)
    ensures
        stably_ordered(sorted@, tasks@, task_ranks(tasks@)),
{
    let mut ranks: Vec<(i64, i64)> = Vec::new();
    let mut i: usize = 0;
    while i < tasks.len()
        invariant
            i <= tasks.len(),
            ranks@ == tasks@.take(i as int).map_values(|t: Task| task_rank(t)),
        decreases tasks.len() - i,
    {
        let k = get_task_sort_key(&tasks[i]);
        ranks.push(k);
        proof {
            assert(tasks@.take(i + 1) =~= tasks@.take(i as int).push(tasks@[i as int]));
            assert(ranks@ =~= tasks@.take(i + 1).map_values(|t: Task| task_rank(t)));
        }
        i = i + 1;
    }
    assert(tasks@.take(tasks.len() as int) =~= tasks@);
    stable_sort_by_rank(tasks, ranks)
}

} // verus!
