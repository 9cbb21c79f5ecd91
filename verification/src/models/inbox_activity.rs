//! Smart-inbox activity items.
//!
//! The inbox gathers assignments, comments, status changes and due dates from
//! several API queries and normalizes them into one kind of item, keyed by an
//! id of the form `{kind}_{source id}`.
use vstd::prelude::*;

use crate::sorting::{is_stable_order, stable_sort_by_rank, stably_ordered};
use crate::text::{
    ellipsize, ellipsized, i64_to_string, int_decimal, is_byte_boundary, owned, push_str,
    str_trim, trimmed, utf8_len,
};

verus! {

/// Kind of inbox activity.
#[derive(Debug, Clone, Copy, PartialEq, Eq, Structural)]
pub enum ActivityType {
    /// A task was assigned to the user.
    Assignment,
    /// A new comment on one of the user's tasks.
    Comment,
    /// A task changed status.
    StatusChange,
    /// A task's due date is near.
    DueDate,
}

impl ActivityType {
    /// The icon shown for this kind of activity.
    pub fn icon(&self) -> (s: &'static str)
        ensures
            s@ == match *self {
                ActivityType::Assignment => "📋"@,
                ActivityType::Comment => "💬"@,
                ActivityType::StatusChange => "🔄"@,
                ActivityType::DueDate => "⏰"@,
            },
    {
        match self {
            ActivityType::Assignment => "📋",
            ActivityType::Comment => "💬",
            ActivityType::StatusChange => "🔄",
            ActivityType::DueDate => "⏰",
        }
    }

    /// The label shown for this kind of activity.
    pub fn label(&self) -> (s: &'static str)
        ensures
            s@ == match *self {
                ActivityType::Assignment => "Assigned"@,
                ActivityType::Comment => "Comment"@,
                ActivityType::StatusChange => "Status"@,
                ActivityType::DueDate => "Due Date"@,
            },
    {
        match self {
            ActivityType::Assignment => "Assigned",
            ActivityType::Comment => "Comment",
            ActivityType::StatusChange => "Status",
            ActivityType::DueDate => "Due Date",
        }
    }
}

/// One normalized inbox item.
#[derive(Debug, Clone, PartialEq)]
pub struct InboxActivity {
    /// `{activity_type}_{source_id}`, e.g. `assignment_123`.
    pub id: String,
    pub activity_type: ActivityType,
    /// Human-readable title.
    pub title: String,
    /// Additional context.
    pub description: String,
    /// When the activity happened (Unix milliseconds).
    pub timestamp: i64,
    pub task_id: Option<String>,
    pub comment_id: Option<String>,
    pub workspace_id: String,
    pub task_name: String,
    pub previous_status: Option<String>,
    pub new_status: Option<String>,
    /// Due date in milliseconds (for due-date items).
    pub due_date: Option<i64>,
}

/// Number of whole days from `now` to `due` (both in milliseconds), rounded
/// toward zero.
pub open spec fn due_days(due: i64, now: i64) -> int {
    let d = due - now;
    if d >= 0 {
        d / 86400000
    } else {
        -((-d) / 86400000)
    }
}

/// The title of a due-date item, from the days left and the task name.
pub open spec fn due_title(days: int, task_name: Seq<char>) -> Seq<char> {
    if days < 0 {
        "⏰ Task overdue: "@ + task_name
    } else if days == 0 {
        "⏰ Task due today: "@ + task_name
    } else if days <= 3 {
        "⏰ Task due in "@ + int_decimal(days) + " days: "@ + task_name
    } else {
        "⏰ Task due soon: "@ + task_name
    }
}

/// A comment shown in the inbox: trimmed, and cut to 97 bytes plus `...`
/// when longer than 100 bytes.
pub open spec fn comment_preview(text: Seq<char>) -> Seq<char> {
    ellipsized(trimmed(text), 100, 97)
}

/// Current time in Unix milliseconds (`chrono::Utc::now().timestamp_millis()`).
#[verifier::external_body]
fn now_millis() -> (t: i64) {
    chrono::Utc::now().timestamp_millis()
}

/// Whether `chrono::DateTime::from_timestamp` can represent a Unix time in
/// seconds: chrono's dates run from January 1 of year -262143 to December 31
/// of year 262142.
pub open spec fn chrono_representable(secs: int) -> bool {
    -8334601228800 <= secs <= 8210266876799
}

/// Unix milliseconds to whole seconds, rounded toward zero as `/` on `i64` is.
pub open spec fn millis_to_secs(ms: int) -> int {
    if ms >= 0 {
        ms / 1000
    } else {
        -((-ms) / 1000)
    }
}

/// The date patterns this library renders with: `Mon DD, YYYY`, and the same
/// with `HH:MM`.
pub open spec fn date_pattern(pattern: Seq<char>) -> bool {
    pattern == "%b %d, %Y"@ || pattern == "%b %d, %Y %H:%M"@
}

/// Renders a Unix time in seconds as a date in the machine's local time zone
/// with the given `strftime` pattern (`chrono::DateTime::from_timestamp`,
/// converted to `Local`, then `format`). The contract claims that the result
/// is `None` exactly when `from_timestamp` cannot represent the time, which
/// chrono's source shows is outside its range of dates. The rendered text
/// depends on the local time zone, so nothing is stated of it.
#[verifier::external_body]
pub(crate) fn local_date_text(secs: i64, pattern: &str) -> (s: Option<String>)
    requires
        date_pattern(pattern@),
    ensures
        s is Some <==> chrono_representable(secs as int),
{
    chrono::DateTime::from_timestamp(secs, 0).map(
        |dt| chrono::DateTime::<chrono::Local>::from(dt).format(pattern).to_string(),
    )
}

/// What a due date (Unix milliseconds) is rendered from: its whole seconds,
/// rounded toward zero, and the pattern `Mon DD, YYYY`.
pub fn due_date_query(timestamp: i64) -> (q: (i64, &'static str))
    ensures
        q.0 == millis_to_secs(timestamp as int),
        q.1@ == "%b %d, %Y"@,
{
    (timestamp / 1000, "%b %d, %Y")
}

/// Formats a due date (Unix milliseconds) as `Mon DD, YYYY` in local time, or
/// `Unknown date` when it cannot be represented: the local date of the time
/// that `due_date_query` gives, rendered with its pattern.
pub fn format_due_date(timestamp: i64) -> (s: String)
    ensures
        !chrono_representable(millis_to_secs(timestamp as int)) ==> s@ == "Unknown date"@,
{
    let (secs, pattern) = due_date_query(timestamp);
    date_text_or_unknown(local_date_text(secs, pattern))
}

/// The rendered date, or `Unknown date` when there is none.
pub fn date_text_or_unknown(text: Option<String>) -> (s: String)
    ensures
        s@ == match text {
            Some(t) => t@,
            None => "Unknown date"@,
        },
{
    match text {
        Some(t) => t,
        None => owned("Unknown date"),
    }
}

/// Trims `text` and cuts it to `max_len` bytes, the last three of them an
/// ellipsis, when it is longer.
pub fn truncate_text(text: &str, max_len: usize) -> (s: String)
    requires
        utf8_len(trimmed(text@)) > max_len ==> is_byte_boundary(
            trimmed(text@),
            (if max_len >= 3 {
                max_len - 3
            } else {
                0
            }) as int,
        ),
    ensures
        s@ == ellipsized(
            trimmed(text@),
            max_len as nat,
            (if max_len >= 3 {
                max_len - 3
            } else {
                0
            }) as nat,
        ),
{
    let stripped = str_trim(text);
    let keep = if max_len >= 3 {
        max_len - 3
    } else {
        0
    };
    ellipsize(stripped, max_len, keep)
}

impl InboxActivity {
    /// A task-assignment item.
    pub fn assignment(
        task_id: String,
        task_name: String,
        workspace_id: String,
        timestamp: i64,
        status: Option<String>,
    ) -> (a: Self)
        ensures
            a.id@ == "assignment_"@ + task_id@,
            a.activity_type == ActivityType::Assignment,
            a.title@ == "📋 Task assigned to you: "@ + task_name@,
            a.description@ == "You were assigned to '"@ + task_name@ + "'"@,
            a.timestamp == timestamp,
            a.task_id == Some(task_id),
            a.comment_id is None,
            a.workspace_id == workspace_id,
            a.task_name == task_name,
            a.previous_status is None,
            a.new_status == status,
            a.due_date is None,
    {
        let mut id = owned("assignment_");
        push_str(&mut id, task_id.as_str());
        let mut title = owned("📋 Task assigned to you: ");
        push_str(&mut title, task_name.as_str());
        let mut description = owned("You were assigned to '");
        push_str(&mut description, task_name.as_str());
        push_str(&mut description, "'");
        InboxActivity {
            id,
            activity_type: ActivityType::Assignment,
            title,
            description,
            timestamp,
            task_id: Some(task_id),
            comment_id: None,
            workspace_id,
            task_name,
            previous_status: None,
            new_status: status,
            due_date: None,
        }
    }

    /// A new-comment item; the description is the comment trimmed and cut to
    /// 100 bytes.
    pub fn comment(
        comment_id: String,
        task_id: String,
        task_name: String,
        workspace_id: String,
        timestamp: i64,
        comment_text: String,
    ) -> (a: Self)
        requires
            utf8_len(trimmed(comment_text@)) > 100 ==> is_byte_boundary(
                trimmed(comment_text@),
                97,
            ),
        ensures
            a.id@ == "comment_"@ + comment_id@,
            a.activity_type == ActivityType::Comment,
            a.title@ == "💬 New comment on: "@ + task_name@,
            a.description@ == comment_preview(comment_text@),
            a.timestamp == timestamp,
            a.task_id == Some(task_id),
            a.comment_id == Some(comment_id),
            a.workspace_id == workspace_id,
            a.task_name == task_name,
            a.previous_status is None,
            a.new_status is None,
            a.due_date is None,
    {
        let mut id = owned("comment_");
        push_str(&mut id, comment_id.as_str());
        let mut title = owned("💬 New comment on: ");
        push_str(&mut title, task_name.as_str());
        let description = truncate_text(comment_text.as_str(), 100);
        InboxActivity {
            id,
            activity_type: ActivityType::Comment,
            title,
            description,
            timestamp,
            task_id: Some(task_id),
            comment_id: Some(comment_id),
            workspace_id,
            task_name,
            previous_status: None,
            new_status: None,
            due_date: None,
        }
    }

    /// A status-change item; its id includes the timestamp, so every change
    /// is its own item.
    pub fn status_change(
        task_id: String,
        task_name: String,
        workspace_id: String,
        timestamp: i64,
        old_status: String,
        new_status: String,
    ) -> (a: Self)
        ensures
            a.id@ == "status_"@ + task_id@ + "_"@ + int_decimal(timestamp as int),
            a.activity_type == ActivityType::StatusChange,
            a.title@ == "🔄 Status changed: "@ + task_name@,
            a.description@ == "Changed from '"@ + old_status@ + "' to '"@ + new_status@ + "'"@,
            a.timestamp == timestamp,
            a.task_id == Some(task_id),
            a.comment_id is None,
            a.workspace_id == workspace_id,
            a.task_name == task_name,
            a.previous_status == Some(old_status),
            a.new_status == Some(new_status),
            a.due_date is None,
    {
        let mut id = owned("status_");
        push_str(&mut id, task_id.as_str());
        push_str(&mut id, "_");
        let ts = i64_to_string(timestamp);
        push_str(&mut id, ts.as_str());
        let mut title = owned("🔄 Status changed: ");
        push_str(&mut title, task_name.as_str());
        let mut description = owned("Changed from '");
        push_str(&mut description, old_status.as_str());
        push_str(&mut description, "' to '");
        push_str(&mut description, new_status.as_str());
        push_str(&mut description, "'");
        InboxActivity {
            id,
            activity_type: ActivityType::StatusChange,
            title,
            description,
            timestamp,
            task_id: Some(task_id),
            comment_id: None,
            workspace_id,
            task_name,
            previous_status: Some(old_status),
            new_status: Some(new_status),
            due_date: None,
        }
    }

    /// A due-date item as of time `now` (Unix milliseconds), with the due
    /// date already rendered as `due_text`.
    pub fn due_date_at(
        task_id: String,
        task_name: String,
        workspace_id: String,
        due_date: i64,
        now: i64,
        due_text: String,
    ) -> (a: Self)
        ensures
            a.id@ == "due_"@ + task_id@,
            a.activity_type == ActivityType::DueDate,
            a.title@ == due_title(due_days(due_date, now), task_name@),
            a.description == due_text,
            a.timestamp == now,
            a.task_id == Some(task_id),
            a.comment_id is None,
            a.workspace_id == workspace_id,
            a.task_name == task_name,
            a.previous_status is None,
            a.new_status is None,
            a.due_date == Some(due_date),
    {
        let d: i128 = due_date as i128 - now as i128;
        let days: i128 = if d >= 0 {
            d / 86400000
        } else {
            -((-d) / 86400000)
        };
        let mut title = if days < 0 {
            owned("⏰ Task overdue: ")
        } else if days == 0 {
            owned("⏰ Task due today: ")
        } else if days <= 3 {
            let mut t = owned("⏰ Task due in ");
            let n = i64_to_string(days as i64);
            push_str(&mut t, n.as_str());
            push_str(&mut t, " days: ");
            t
        } else {
            owned("⏰ Task due soon: ")
        };
        push_str(&mut title, task_name.as_str());
        let mut id = owned("due_");
        push_str(&mut id, task_id.as_str());
        InboxActivity {
            id,
            activity_type: ActivityType::DueDate,
            title,
            description: due_text,
            timestamp: now,
            task_id: Some(task_id),
            comment_id: None,
            workspace_id,
            task_name,
            previous_status: None,
            new_status: None,
            due_date: Some(due_date),
        }
    }

    /// A due-date item as of the current time; its title says whether the
    /// task is overdue, due today, due within three days, or due later.
    pub fn due_date(task_id: String, task_name: String, workspace_id: String, due_date: i64) -> (a:
        Self)
        ensures
            a.id@ == "due_"@ + task_id@,
            a.activity_type == ActivityType::DueDate,
            a.title@ == due_title(due_days(due_date, a.timestamp), task_name@),
            a.task_id == Some(task_id),
            a.comment_id is None,
            a.workspace_id == workspace_id,
            a.task_name == task_name,
            a.previous_status is None,
            a.new_status is None,
            a.due_date == Some(due_date),
    {
        let now = now_millis();
        let text = format_due_date(due_date);
        Self::due_date_at(task_id, task_name, workspace_id, due_date, now, text)
    }

    /// The icon of this item's kind.
    pub fn icon(&self) -> (s: &'static str)
        ensures
            s@ == match self.activity_type {
                ActivityType::Assignment => "📋"@,
                ActivityType::Comment => "💬"@,
                ActivityType::StatusChange => "🔄"@,
                ActivityType::DueDate => "⏰"@,
            },
    {
        self.activity_type.icon()
    }
}

/// Inbox items returned by the API.
#[derive(Debug, Clone)]
pub struct InboxActivityResponse {
    pub activities: Vec<InboxActivity>,
}

// ---------------------------------------------------------------------------
// Deduplication
// ---------------------------------------------------------------------------

/// `input[i]` is the item kept for its id: no item with the same id is more
/// recent, and none before it is as recent.
pub open spec fn is_kept_occurrence(input: Seq<InboxActivity>, i: int) -> bool {
    forall|j: int|
        0 <= j < input.len() && (#[trigger] input[j]).id@ == input[i].id@ ==> input[j].timestamp
            <= input[i].timestamp && (j < i ==> input[j].timestamp < input[i].timestamp)
}

/// `a` is the item of `input` kept for its id.
pub open spec fn is_kept_item(input: Seq<InboxActivity>, a: InboxActivity) -> bool {
    exists|i: int| 0 <= i < input.len() && input[i] == a && is_kept_occurrence(input, i)
}

/// `res` holds, for each id of `input`, exactly one item: the most recent one
/// (the first of them on a tie); and `res` is ordered newest first.
pub open spec fn is_deduplication(res: Seq<InboxActivity>, input: Seq<InboxActivity>) -> bool {
    &&& forall|p: int| 0 <= p < res.len() ==> is_kept_item(input, #[trigger] res[p])
    &&& forall|p: int, q: int|
        0 <= p < q < res.len() ==> (#[trigger] res[p]).id@ != (#[trigger] res[q]).id@
    &&& forall|i: int|
        0 <= i < input.len() ==> exists|p: int|
            0 <= p < res.len() && (#[trigger] res[p]).id@ == (#[trigger] input[i]).id@
    &&& forall|p: int, q: int|
        0 <= p < q < res.len() ==> (#[trigger] res[p]).timestamp >= (#[trigger] res[q]).timestamp
}

/// Removes items with a repeated id, keeping the most recent one of each id,
/// and orders the result newest first.
pub fn deduplicate_activities(activities: Vec<InboxActivity>) -> (res: Vec<InboxActivity>)
    ensures
        is_deduplication(res@, activities@),
{
    let ghost input = activities@;
    let ghost n = activities.len() as int;
    let mut rest = activities;
    let mut uniq: Vec<InboxActivity> = Vec::new();
    let ghost mut src: Seq<int> = Seq::empty();
    while rest.len() > 0
        invariant
            n == input.len(),
            rest.len() <= n,
            rest@ == input.take(rest.len() as int),
            src.len() == uniq.len(),
            forall|p: int|
                0 <= p < uniq.len() ==> rest.len() <= #[trigger] src[p] < n && uniq@[p]
                    == input[src[p]],
            forall|p: int, q: int|
                0 <= p < q < uniq.len() ==> (#[trigger] uniq@[p]).id@ != (
                #[trigger] uniq@[q]).id@,
            forall|p: int|
                #![trigger src[p]]
                0 <= p < uniq.len() ==> forall|j: int|
                    rest.len() <= j < n && (#[trigger] input[j]).id@ == input[src[p]].id@
                        ==> input[j].timestamp <= input[src[p]].timestamp && (j < src[p]
                        ==> input[j].timestamp < input[src[p]].timestamp),
            forall|j: int|
                rest.len() <= j < n ==> exists|p: int|
                    0 <= p < uniq.len() && (#[trigger] uniq@[p]).id@ == (
                    #[trigger] input[j]).id@,
        decreases rest.len(),
    {
        let x = rest.pop().unwrap();
        let ghost idx = rest.len() as int;
        assert(x == input[idx]);
        let mut pos: usize = 0;
        while pos < uniq.len() && !(uniq[pos].id == x.id)
            invariant
                pos <= uniq.len(),
                forall|p: int| 0 <= p < pos ==> (#[trigger] uniq@[p]).id@ != x.id@,
            decreases uniq.len() - pos,
        {
            pos = pos + 1;
        }
        let ghost old_uniq = uniq@;
        let ghost old_src = src;
        if pos < uniq.len() {
            if x.timestamp >= uniq[pos].timestamp {
                uniq.set(pos, x);
                proof {
                    src = src.update(pos as int, idx);
                }
            }
        } else {
            uniq.push(x);
            proof {
                src = src.push(idx);
            }
        }
        proof {
            assert forall|p: int, q: int|
                0 <= p < q < uniq.len() implies (#[trigger] uniq@[p]).id@ != (
                #[trigger] uniq@[q]).id@ by {
                if p != pos && q != pos {
                    assert(uniq@[p] == old_uniq[p] && uniq@[q] == old_uniq[q]);
                } else if p == pos {
                    assert(uniq@[p].id@ == old_uniq[p].id@ || p == old_uniq.len());
                    assert(uniq@[q] == old_uniq[q]);
                } else {
                    assert(uniq@[q].id@ == x.id@);
                    assert(uniq@[p] == old_uniq[p]);
                }
            }
            assert forall|p: int|
                #![trigger src[p]]
                0 <= p < uniq.len() implies forall|j: int|
                rest.len() <= j < n && (#[trigger] input[j]).id@ == input[src[p]].id@
                    ==> input[j].timestamp <= input[src[p]].timestamp && (j < src[p]
                    ==> input[j].timestamp < input[src[p]].timestamp) by {
                if p != pos {
                    assert(src[p] == old_src[p]);
                    assert(uniq@[p] == old_uniq[p]);
                    if p < old_uniq.len() && pos < old_uniq.len() {
                        assert(old_uniq[p].id@ != old_uniq[pos as int].id@ || p == pos);
                    }
                }
            }
            assert forall|j: int| rest.len() <= j < n implies exists|p: int|
                0 <= p < uniq.len() && (#[trigger] uniq@[p]).id@ == (
                #[trigger] input[j]).id@ by {
                if j == idx {
                    assert(uniq@[pos as int].id@ == input[j].id@);
                } else {
                    let p = choose|p: int|
                        0 <= p < old_uniq.len() && (#[trigger] old_uniq[p]).id@ == (
                        #[trigger] input[j]).id@;
                    assert(uniq@[p].id@ == old_uniq[p].id@);
                }
            }
            assert(rest@ =~= input.take(rest.len() as int));
        }
    }
    let mut ranks: Vec<(i64, i64)> = Vec::new();
    let mut i: usize = 0;
    while i < uniq.len()
        invariant
            i <= uniq.len(),
            ranks@ == uniq@.take(i as int).map_values(|a: InboxActivity| (0i64, a.timestamp)),
        decreases uniq.len() - i,
    {
        ranks.push((0, uniq[i].timestamp));
        proof {
            assert(uniq@.take(i + 1) =~= uniq@.take(i as int).push(uniq@[i as int]));
            assert(ranks@ =~= uniq@.take(i + 1).map_values(
                |a: InboxActivity| (0i64, a.timestamp),
            ));
        }
        i = i + 1;
    }
    assert(uniq@.take(uniq.len() as int) =~= uniq@);
    let ghost u = uniq@;
    let ghost r = ranks@;
    let sorted = stable_sort_by_rank(uniq, ranks);
    proof {
        let perm = choose|perm: Seq<int>| is_stable_order(sorted@, u, r, perm);
        assert(is_stable_order(sorted@, u, r, perm));
        assert forall|p: int| 0 <= p < sorted@.len() implies is_kept_item(
            input,
            #[trigger] sorted@[p],
        ) by {
            let k = perm[p];
            assert(sorted@[p] == u[k]);
            let i = src[k];
            assert(u[k] == input[i]);
            assert forall|j: int|
                0 <= j < input.len() && (#[trigger] input[j]).id@ == input[i].id@ implies input[j].timestamp
                <= input[i].timestamp && (j < i ==> input[j].timestamp < input[i].timestamp) by {
                assert(src[k] == i);
            }
            assert(0 <= i < input.len() && input[i] == sorted@[p] && is_kept_occurrence(input, i));
        }
        assert forall|p: int, q: int|
            0 <= p < q < sorted@.len() implies (#[trigger] sorted@[p]).id@ != (
            #[trigger] sorted@[q]).id@ by {
            let a = perm[p];
            let b = perm[q];
            assert(sorted@[p] == u[a] && sorted@[q] == u[b]);
            if a < b {
                assert(u[a].id@ != u[b].id@);
            } else {
                assert(a != b);
                assert(u[b].id@ != u[a].id@);
            }
        }
        assert forall|i: int| 0 <= i < input.len() implies exists|p: int|
            0 <= p < sorted@.len() && (#[trigger] sorted@[p]).id@ == (#[trigger] input[i]).id@ by {
            let k = choose|k: int|
                0 <= k < u.len() && (#[trigger] u[k]).id@ == (#[trigger] input[i]).id@;
            lemma_perm_onto(perm, u.len() as int, k);
            let p = choose|p: int| 0 <= p < perm.len() && perm[p] == k;
            assert(sorted@[p] == u[k]);
        }
        assert forall|p: int, q: int|
            0 <= p < q < sorted@.len() implies (#[trigger] sorted@[p]).timestamp >= (
            #[trigger] sorted@[q]).timestamp by {
            assert(sorted@[p] == u[perm[p]] && sorted@[q] == u[perm[q]]);
            assert(r[perm[p]] == (0i64, u[perm[p]].timestamp));
            assert(r[perm[q]] == (0i64, u[perm[q]].timestamp));
        }
        assert(is_deduplication(sorted@, input));
    }
    sorted
}

/// An injective map from `0..n` into `0..n` reaches every index.
pub proof fn lemma_perm_onto(perm: Seq<int>, n: int, k: int)
    requires
        perm.len() == n,
        0 <= k < n,
        forall|j: int| 0 <= j < perm.len() ==> 0 <= #[trigger] perm[j] < n,
        forall|a: int, b: int| 0 <= a < b < perm.len() ==> #[trigger] perm[a] != #[trigger] perm[b],
    ensures
        exists|p: int| 0 <= p < perm.len() && perm[p] == k,
{
    let s = perm.to_set();
    let full = Set::new(|i: int| 0 <= i < n);
    assert(s.subset_of(full));
    perm.unique_seq_to_set();
    vstd::set_lib::lemma_int_range(0, n);
    assert(full =~= vstd::set_lib::set_int_range(0, n));
    if !s.contains(k) {
        assert(s.subset_of(full.remove(k)));
        vstd::set_lib::lemma_len_subset(s, full.remove(k));
        assert(false);
    }
}

/// Two kept occurrences of the same id are the same occurrence.
proof fn lemma_kept_occurrence_unique(input: Seq<InboxActivity>, i: int, k: int)
    requires
        0 <= i < input.len(),
        0 <= k < input.len(),
        is_kept_occurrence(input, i),
        is_kept_occurrence(input, k),
        input[i].id@ == input[k].id@,
    ensures
        i == k,
{
    assert(input[k].timestamp <= input[i].timestamp);
    assert(input[i].timestamp <= input[k].timestamp);
}

/// An item of a deduplication is in every deduplication of the same items.
proof fn lemma_deduplication_item_shared(
    input: Seq<InboxActivity>,
    a: Seq<InboxActivity>,
    b: Seq<InboxActivity>,
    p: int,
)
    requires
        is_deduplication(a, input),
        is_deduplication(b, input),
        0 <= p < a.len(),
    ensures
        b.contains(a[p]),
{
    assert(is_kept_item(input, a[p]));
    let i = choose|i: int| 0 <= i < input.len() && input[i] == a[p] && is_kept_occurrence(input, i);
    let q = choose|q: int| 0 <= q < b.len() && (#[trigger] b[q]).id@ == (#[trigger] input[i]).id@;
    assert(is_kept_item(input, b[q]));
    let k = choose|k: int| 0 <= k < input.len() && input[k] == b[q] && is_kept_occurrence(input, k);
    lemma_kept_occurrence_unique(input, i, k);
    assert(b[q] == a[p]);
}

/// A deduplication holds each item once.
proof fn lemma_deduplication_no_duplicates(input: Seq<InboxActivity>, a: Seq<InboxActivity>)
    requires
        is_deduplication(a, input),
    ensures
        a.no_duplicates(),
{
    assert forall|p: int, q: int| 0 <= p < a.len() && 0 <= q < a.len() && p != q implies a[p]
        != a[q] by {
        if p < q {
            assert(a[p].id@ != a[q].id@);
        } else {
            assert(a[q].id@ != a[p].id@);
        }
    }
}

/// Two deduplications of the same items (say `merge_activity_sources` of
/// some lists and `deduplicate_activities` of their concatenation) differ at
/// most in the order of items with equal timestamps: they hold the same items,
/// each once, and at every position items of the same timestamp. Of no items
/// the only deduplication is empty.
#[verifier::rlimit(40)]
pub proof fn lemma_deduplications_agree(
    input: Seq<InboxActivity>,
    a: Seq<InboxActivity>,
    b: Seq<InboxActivity>,
)
    requires
        is_deduplication(a, input),
        is_deduplication(b, input),
    ensures
        a.no_duplicates(),
        b.no_duplicates(),
        a.to_set() == b.to_set(),
        a.len() == b.len(),
        forall|p: int| 0 <= p < a.len() ==> (#[trigger] a[p]).timestamp == b[p].timestamp,
        input.len() == 0 ==> a.len() == 0,
{
    broadcast use vstd::seq_lib::group_seq_properties;

    lemma_deduplication_no_duplicates(input, a);
    lemma_deduplication_no_duplicates(input, b);
    assert forall|x: InboxActivity| a.to_set().contains(x) <==> b.to_set().contains(x) by {
        if a.contains(x) {
            let p = choose|p: int| 0 <= p < a.len() && a[p] == x;
            lemma_deduplication_item_shared(input, a, b, p);
        }
        if b.contains(x) {
            let q = choose|q: int| 0 <= q < b.len() && b[q] == x;
            lemma_deduplication_item_shared(input, b, a, q);
        }
    }
    assert(a.to_set() =~= b.to_set());
    a.unique_seq_to_set();
    b.unique_seq_to_set();
    lemma_deduplication_facts(input, a, b);
    lemma_deduplication_facts(input, b, a);
    assert forall|p: int| 0 <= p < a.len() implies (#[trigger] a[p]).timestamp == b[p].timestamp by {
        lemma_not_newer_at(a, b, p);
        lemma_not_newer_at(b, a, p);
    }
    if input.len() == 0 && a.len() > 0 {
        assert(is_kept_item(input, a[0]));
    }
}

/// Items ordered newest first.
#[verifier::opaque]
pub open spec fn newest_first(s: Seq<InboxActivity>) -> bool {
    forall|p: int, q: int|
        0 <= p < q < s.len() ==> (#[trigger] s[p]).timestamp >= (#[trigger] s[q]).timestamp
}

/// A deduplication is ordered newest first, and holds what every other
/// deduplication of the same items holds.
proof fn lemma_deduplication_facts(input: Seq<InboxActivity>, a: Seq<InboxActivity>, b: Seq<InboxActivity>)
    requires
        is_deduplication(a, input),
        is_deduplication(b, input),
    ensures
        newest_first(a),
        forall|r: int| 0 <= r < a.len() ==> b.contains(#[trigger] a[r]),
{
    reveal(newest_first);
    assert forall|r: int| 0 <= r < a.len() implies b.contains(#[trigger] a[r]) by {
        lemma_deduplication_item_shared(input, a, b, r);
    }
}

/// An item of `b` newer than `b[p]` stands before position `p`.
proof fn lemma_newer_item_earlier(x: InboxActivity, b: Seq<InboxActivity>, p: int) -> (q: int)
    requires
        newest_first(b),
        b.contains(x),
        0 <= p < b.len(),
        x.timestamp > b[p].timestamp,
    ensures
        0 <= q < p,
        b[q] == x,
{
    reveal(newest_first);
    let q = choose|q: int| 0 <= q < b.len() && b[q] == x;
    if q > p {
        assert(b[p].timestamp >= b[q].timestamp);
    }
    q
}

/// Where `a[p]` is newer than `b[p]`, the items of `a` up to position `p`
/// (each at least as new as `a[p]`) are among the first `p` items of `b`.
#[verifier::rlimit(40)]
proof fn lemma_newer_head_within(a: Seq<InboxActivity>, b: Seq<InboxActivity>, p: int)
    requires
        newest_first(a),
        newest_first(b),
        forall|r: int| 0 <= r < a.len() ==> b.contains(#[trigger] a[r]),
        0 <= p < a.len(),
        p < b.len(),
        a[p].timestamp > b[p].timestamp,
    ensures
        a.take(p + 1).to_set().subset_of(b.take(p).to_set()),
{
    let head = a.take(p + 1);
    let front = b.take(p);
    assert forall|x: InboxActivity| head.to_set().contains(x) implies front.to_set().contains(x) by {
        let r = choose|r: int| 0 <= r < head.len() && head[r] == x;
        assert(head[r] == a[r]);
        if r < p {
            reveal(newest_first);
            assert(a[r].timestamp >= a[p].timestamp);
        }
        assert(b.contains(a[r]));
        let q = lemma_newer_item_earlier(x, b, p);
        assert(front[q] == b[q]);
        assert(front.contains(x));
    }
}

/// Position by position, of two lists of distinct items ordered newest first
/// where the first's items are all in the second, the first holds no newer
/// item: were `a[p]` newer than `b[p]`, the `p + 1` items up to `a[p]` would
/// all have to stand among the first `p` items of `b`.
#[verifier::rlimit(40)]
proof fn lemma_not_newer_at(a: Seq<InboxActivity>, b: Seq<InboxActivity>, p: int)
    requires
        newest_first(a),
        newest_first(b),
        forall|r: int| 0 <= r < a.len() ==> b.contains(#[trigger] a[r]),
        a.no_duplicates(),
        0 <= p < a.len(),
        p < b.len(),
    ensures
        a[p].timestamp <= b[p].timestamp,
{
    if a[p].timestamp > b[p].timestamp {
        let head = a.take(p + 1);
        let front = b.take(p);
        lemma_newer_head_within(a, b, p);
        assert forall|x: int, y: int| 0 <= x < head.len() && 0 <= y < head.len() && x != y implies head[x]
            != head[y] by {
            assert(head[x] == a[x] && head[y] == a[y]);
        }
        head.unique_seq_to_set();
        front.lemma_cardinality_of_set();
        vstd::seq_lib::seq_to_set_is_finite(front);
        vstd::set_lib::lemma_len_subset(head.to_set(), front.to_set());
    }
}

/// Merging activity lists gives what deduplicating their concatenation
/// gives, up to the order of items with equal timestamps: `merged` (what
/// `merge_activity_sources` returns for the lists) and `deduped` (what
/// `deduplicate_activities` returns for their concatenation) hold the same
/// items, each once, newest first, with equal timestamps position by
/// position; when the lists hold no item, both are empty.
pub proof fn lemma_merge_matches_deduplicate(
    sources: Seq<Seq<InboxActivity>>,
    merged: Seq<InboxActivity>,
    deduped: Seq<InboxActivity>,
)
    requires
        is_deduplication(merged, sources.flatten()),
        is_deduplication(deduped, sources.flatten()),
    ensures
        merged.no_duplicates(),
        merged.to_set() == deduped.to_set(),
        merged.len() == deduped.len(),
        forall|p: int| 0 <= p < merged.len() ==> (#[trigger] merged[p]).timestamp == deduped[p].timestamp,
        forall|p: int, q: int|
            0 <= p < q < merged.len() ==> (#[trigger] merged[p]).timestamp >= (#[trigger] merged[q]).timestamp,
        sources.flatten().len() == 0 ==> merged.len() == 0 && deduped.len() == 0,
{
    lemma_deduplications_agree(sources.flatten(), merged, deduped);
    lemma_deduplications_agree(sources.flatten(), deduped, merged);
}

/// Combines several activity lists into one, deduplicated as
/// `deduplicate_activities` does.
pub fn merge_activity_sources(sources: Vec<Vec<InboxActivity>>) -> (res: Vec<InboxActivity>)
    ensures
        is_deduplication(res@, sources@.map_values(|v: Vec<InboxActivity>| v@).flatten()),
{
    let ghost views = sources@.map_values(|v: Vec<InboxActivity>| v@);
    let ghost orig = sources@;
    let mut sources = sources;
    let mut all: Vec<InboxActivity> = Vec::new();
    assert(views.skip(views.len() as int) =~= Seq::<Seq<InboxActivity>>::empty());
    while sources.len() > 0
        invariant
            sources.len() <= orig.len(),
            sources@ == orig.take(sources.len() as int),
            views == orig.map_values(|v: Vec<InboxActivity>| v@),
            all@ == views.skip(sources.len() as int).flatten(),
        decreases sources.len(),
    {
        let mut v = sources.pop().unwrap();
        let ghost m = sources.len() as int;
        proof {
            assert(v@ == views[m]);
            assert(views.skip(m).drop_first() =~= views.skip(m + 1));
            assert(views.skip(m).first() == views[m]);
        }
        v.append(&mut all);
        all = v;
        proof {
            assert(sources@ =~= orig.take(sources.len() as int));
        }
    }
    assert(views.skip(0) =~= views);
    deduplicate_activities(all)
}

} // verus!
