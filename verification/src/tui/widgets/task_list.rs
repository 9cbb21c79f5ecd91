//! The task list, grouped by status.
//!
//! Rows are a flat sequence of group headers and tasks; navigation skips the
//! headers and only ever selects task rows.
use vstd::prelude::*;

use crate::models::task::{
    get_status_group_priority, group_priority, priority_rank, sort_tasks, task_rank, task_ranks, Priority,
    Task, TaskStatus,
};
use crate::models::inbox_activity::lemma_perm_onto;
use crate::sorting::{is_stable_order, reversed, stably_ordered};
use crate::text::{
    int_decimal, lemma_lex_asymmetric, lemma_lex_irreflexive, lemma_lex_total,
    lemma_lex_transitive, lex_lt, owned, push_str, spec_to_uppercase, str_less, to_uppercase,
    u64_to_string,
};

verus! {

/// A row of the task list: a status group header or a task.
#[derive(Debug, Clone)]
pub enum ListRow {
    Header { label: String, count: usize },
    Task(Task),
}

/// A row as plain values.
pub enum RowView {
    Header(Seq<char>, nat),
    Task(Task),
}

/// The view of a row.
pub open spec fn row_view(r: ListRow) -> RowView {
    match r {
        ListRow::Header { label, count } => RowView::Header(label@, count as nat),
        ListRow::Task(t) => RowView::Task(t),
    }
}

/// The name of the group a task is listed under: its status group, else its
/// status name, else `other`.
pub open spec fn resolved_status_group(status: Option<TaskStatus>) -> Seq<char> {
    match status {
        Some(s) => match s.status_group {
            Some(g) => g@,
            None => s.status@,
        },
        None => "other"@,
    }
}

/// The group a task is listed under.
pub open spec fn task_group(t: Task) -> Seq<char> {
    resolved_status_group(t.status)
}

/// The header label of a group: `▸ NAME (count)`.
pub open spec fn group_label(name: Seq<char>, count: nat) -> Seq<char> {
    "▸ "@ + spec_to_uppercase(name) + " ("@ + int_decimal(count as int) + ")"@
}

/// The sort rank of a group name.
pub open spec fn group_rank(name: Seq<char>) -> int {
    priority_rank(group_priority(Some(name)))
}

/// Group `a` is listed before group `b`: by status priority, then by name.
pub open spec fn group_before(a: Seq<char>, b: Seq<char>) -> bool {
    group_rank(a) < group_rank(b) || (group_rank(a) == group_rank(b) && lex_lt(a, b))
}

/// The tasks of `sorted` in group `name`, in order.
pub open spec fn group_members(name: Seq<char>, sorted: Seq<Task>) -> Seq<Task> {
    sorted.filter(|t: Task| task_group(t) == name)
}

/// The rows of one group: its header, then its tasks.
pub open spec fn group_rows(name: Seq<char>, sorted: Seq<Task>) -> Seq<RowView> {
    let members = group_members(name, sorted);
    seq![RowView::Header(group_label(name, members.len()), members.len())] + members.map_values(
        |t: Task| RowView::Task(t),
    )
}

/// The rows of the given groups, one after the other.
pub open spec fn rows_for(names: Seq<Seq<char>>, sorted: Seq<Task>) -> Seq<RowView> {
    names.map_values(|n: Seq<char>| group_rows(n, sorted)).flatten()
}

/// `names` lists every group of `sorted` exactly once, in group order.
pub open spec fn is_group_order(names: Seq<Seq<char>>, sorted: Seq<Task>) -> bool {
    &&& forall|i: int, j: int| 0 <= i < j < names.len() ==> group_before(names[i], names[j])
    &&& forall|k: int| 0 <= k < sorted.len() ==> names.contains(task_group(sorted[k]))
    &&& forall|i: int|
        0 <= i < names.len() ==> exists|k: int|
            0 <= k < sorted.len() && task_group(sorted[k]) == #[trigger] names[i]
}

/// `rows` is the grouped form of `tasks`: the tasks sorted as `sort_tasks`
/// sorts them, split by group, groups in status-priority then name order,
/// each group a header followed by its tasks.
pub open spec fn is_grouping(rows: Seq<RowView>, tasks: Seq<Task>) -> bool {
    exists|sorted: Seq<Task>, names: Seq<Seq<char>>|
        #![trigger rows_for(names, sorted)]
        stably_ordered(sorted, tasks, task_ranks(tasks))
            && is_group_order(names, sorted) && rows == rows_for(names, sorted)
}

/// An item is in a concatenation of sequences exactly when it is in one of
/// them.
pub proof fn lemma_flatten_contains<A>(ss: Seq<Seq<A>>, x: A)
    ensures
        ss.flatten().contains(x) <==> exists|i: int|
            0 <= i < ss.len() && (#[trigger] ss[i]).contains(x),
    decreases ss.len(),
{
    if ss.len() == 0 {
        assert(ss.flatten() =~= Seq::<A>::empty());
    } else {
        let rest = ss.drop_first();
        lemma_flatten_contains(rest, x);
        let f = ss.flatten();
        let head = ss.first();
        assert(f == head + rest.flatten());
        if f.contains(x) {
            let k = choose|k: int| 0 <= k < f.len() && f[k] == x;
            if k < head.len() {
                assert(head[k] == x);
                assert(ss[0].contains(x));
            } else {
                assert(rest.flatten()[k - head.len()] == x);
                assert(rest.flatten().contains(x));
                let j = choose|j: int| 0 <= j < rest.len() && (#[trigger] rest[j]).contains(x);
                assert(rest[j] == ss[j + 1]);
                assert(ss[j + 1].contains(x));
            }
        }
        if exists|i: int| 0 <= i < ss.len() && (#[trigger] ss[i]).contains(x) {
            let i = choose|i: int| 0 <= i < ss.len() && (#[trigger] ss[i]).contains(x);
            if i == 0 {
                let k = choose|k: int| 0 <= k < head.len() && head[k] == x;
                assert(f[k] == x);
            } else {
                assert(rest[i - 1] == ss[i]);
                assert(rest[i - 1].contains(x));
                let k = choose|k: int| 0 <= k < rest.flatten().len() && rest.flatten()[k] == x;
                assert(f[k + head.len()] == x);
            }
        }
    }
}

/// The task rows are exactly the tasks `c`: every task has a row, and every
/// task row holds one of the tasks.
pub open spec fn rows_hold(rows: Seq<RowView>, c: Seq<Task>) -> bool {
    &&& forall|i: int| 0 <= i < c.len() ==> rows.contains(RowView::Task(#[trigger] c[i]))
    &&& forall|r: int|
        0 <= r < rows.len() ==> (#[trigger] rows[r] matches RowView::Task(t) ==> c.contains(t))
}

/// The task rows of a grouping are the tasks grouped: every task has a row,
/// and every task row holds one of the tasks.
pub proof fn lemma_grouping_members(rows: Seq<RowView>, c: Seq<Task>)
    requires
        is_grouping(rows, c),
    ensures
        rows_hold(rows, c),
{
    let (sorted, names) = choose|sorted: Seq<Task>, names: Seq<Seq<char>>|
        #![trigger rows_for(names, sorted)]
        stably_ordered(sorted, c, task_ranks(c)) && is_group_order(names, sorted) && rows
            == rows_for(names, sorted);
    let perm = choose|perm: Seq<int>| is_stable_order(sorted, c, task_ranks(c), perm);
    let gs = names.map_values(|n: Seq<char>| group_rows(n, sorted));
    assert(rows == gs.flatten());
    assert forall|i: int| 0 <= i < c.len() implies rows.contains(RowView::Task(#[trigger] c[i])) by {
        lemma_perm_onto(perm, c.len() as int, i);
        let p = choose|p: int| 0 <= p < perm.len() && perm[p] == i;
        assert(sorted[p] == c[i]);
        let g = task_group(c[i]);
        assert(names.contains(task_group(sorted[p])));
        let k = choose|k: int| 0 <= k < names.len() && names[k] == g;
        sorted.lemma_filter_contains(|t: Task| task_group(t) == g, p);
        let members = group_members(g, sorted);
        assert(members.contains(c[i]));
        let mi = choose|mi: int| 0 <= mi < members.len() && members[mi] == c[i];
        let gr = group_rows(g, sorted);
        assert(gr[mi + 1] == RowView::Task(c[i]));
        assert(gs[k] == gr);
        assert(gs[k].contains(RowView::Task(c[i])));
        lemma_flatten_contains(gs, RowView::Task(c[i]));
    }
    assert forall|r: int| 0 <= r < rows.len() implies (#[trigger] rows[r] matches RowView::Task(t)
        ==> c.contains(t)) by {
        let x = rows[r];
        if let RowView::Task(t) = x {
            assert(rows.contains(x));
            lemma_flatten_contains(gs, x);
            let k = choose|k: int| 0 <= k < gs.len() && (#[trigger] gs[k]).contains(x);
            let g = names[k];
            let gr = group_rows(g, sorted);
            assert(gs[k] == gr);
            let members = group_members(g, sorted);
            let q = choose|q: int| 0 <= q < gr.len() && gr[q] == x;
            assert(q > 0);
            assert(gr[q] == RowView::Task(members[q - 1]));
            assert(members[q - 1] == t);
            assert(members.contains(t));
            sorted.lemma_filter_contains_rev(|u: Task| task_group(u) == g, t);
            let s = choose|s: int| 0 <= s < sorted.len() && sorted[s] == t;
            assert(sorted[s] == c[perm[s]]);
            assert(c[perm[s]] == t);
        }
    }
}

/// Group order is a strict total order on distinct names.
pub proof fn lemma_group_order(a: Seq<char>, b: Seq<char>, c: Seq<char>)
    ensures
        !group_before(a, a),
        a != b ==> group_before(a, b) || group_before(b, a),
        group_before(a, b) ==> !group_before(b, a),
        group_before(a, b) && group_before(b, c) ==> group_before(a, c),
{
    lemma_lex_irreflexive(a);
    if a != b {
        lemma_lex_total(a, b);
    }
    if lex_lt(a, b) {
        lemma_lex_asymmetric(a, b);
    }
    if lex_lt(a, b) && lex_lt(b, c) {
        lemma_lex_transitive(a, b, c);
    }
}

/// Filtering by a predicate that nothing satisfies leaves nothing.
pub proof fn lemma_filter_none<A>(s: Seq<A>, pred: spec_fn(A) -> bool)
    requires
        forall|i: int| 0 <= i < s.len() ==> !pred(#[trigger] s[i]),
    ensures
        s.filter(pred) == Seq::<A>::empty(),
    decreases s.len(),
{
    reveal(Seq::filter);
    if s.len() > 0 {
        lemma_filter_none(s.drop_last(), pred);
    }
}

/// The name of the group a status is listed under.
pub fn resolve_status_group(status: Option<&TaskStatus>) -> (s: String)
    ensures
        s@ == resolved_status_group(
            match status {
                Some(st) => Some(*st),
                None => None,
            },
        ),
{
    match status {
        Some(s) => match &s.status_group {
            Some(g) => g.clone(),
            None => s.status.clone(),
        },
        None => owned("other"),
    }
}

/// `▸ NAME (count)`.
fn format_group_label(group_name: &str, count: usize) -> (s: String)
    ensures
        s@ == group_label(group_name@, count as nat),
{
    let mut s = owned("▸ ");
    let upper = to_uppercase(group_name);
    push_str(&mut s, upper.as_str());
    push_str(&mut s, " (");
    let n = u64_to_string(count as u64);
    push_str(&mut s, n.as_str());
    push_str(&mut s, ")");
    s
}

/// Whether group `a` is listed before group `b`.
fn group_precedes(a: &str, b: &str) -> (r: bool)
    ensures
        r == group_before(a@, b@),
{
    let ra = get_status_group_priority(Some(a)).rank();
    let rb = get_status_group_priority(Some(b)).rank();
    ra < rb || (ra == rb && str_less(a, b))
}

/// Task list rows with the selected row.
#[derive(Debug, Clone)]
pub struct GroupedTaskList {
    pub rows: Vec<ListRow>,
    pub selected: Option<usize>,
}

/// The selection is absent or on an existing row.
pub open spec fn selection_ok(rows: Seq<ListRow>, selected: Option<usize>) -> bool {
    match selected {
        Some(i) => i < rows.len(),
        None => true,
    }
}

/// Row `i` is a task row.
pub open spec fn is_task_row(rows: Seq<ListRow>, i: int) -> bool {
    rows[i] is Task
}

/// The row reached by stepping `o` rows forward from `current`, wrapping.
pub open spec fn forward_index(current: int, o: int, len: int) -> int {
    (current + o) % len
}

/// The row reached by stepping `o` rows backward from `current`, wrapping.
pub open spec fn backward_index(current: int, o: int, len: int) -> int {
    (current + len - o) % len
}

/// The first task row met when stepping forward from `current` by `o`,
/// `o + 1`, ... up to `len` rows (wrapping), if any.
pub open spec fn scan_forward(rows: Seq<ListRow>, current: int, o: int) -> Option<int>
    decreases rows.len() + 1 - o,
{
    if o < 1 || o > rows.len() {
        None
    } else if is_task_row(rows, forward_index(current, o, rows.len() as int)) {
        Some(forward_index(current, o, rows.len() as int))
    } else {
        scan_forward(rows, current, o + 1)
    }
}

/// The first task row met when stepping backward from `current` by `o`,
/// `o + 1`, ... up to `len` rows (wrapping), if any.
pub open spec fn scan_backward(rows: Seq<ListRow>, current: int, o: int) -> Option<int>
    decreases rows.len() + 1 - o,
{
    if o < 1 || o > rows.len() {
        None
    } else if is_task_row(rows, backward_index(current, o, rows.len() as int)) {
        Some(backward_index(current, o, rows.len() as int))
    } else {
        scan_backward(rows, current, o + 1)
    }
}

/// The first task row at or after row `i`, if any.
pub open spec fn first_task_from(rows: Seq<ListRow>, i: int) -> Option<int>
    decreases rows.len() - i,
{
    if i < 0 || i >= rows.len() {
        None
    } else if is_task_row(rows, i) {
        Some(i)
    } else {
        first_task_from(rows, i + 1)
    }
}

/// The selection after moving forward from `selected`.
pub open spec fn next_selection(rows: Seq<ListRow>, selected: Option<usize>) -> Option<usize> {
    if rows.len() == 0 {
        selected
    } else {
        let current = match selected {
            Some(c) => c as int,
            None => 0,
        };
        match scan_forward(rows, current, 1) {
            Some(i) => Some(i as usize),
            None => selected,
        }
    }
}

/// The selection after moving backward from `selected`.
pub open spec fn previous_selection(rows: Seq<ListRow>, selected: Option<usize>) -> Option<
    usize,
> {
    if rows.len() == 0 {
        selected
    } else {
        let current = match selected {
            Some(c) => c as int,
            None => 0,
        };
        match scan_backward(rows, current, 1) {
            Some(i) => Some(i as usize),
            None => selected,
        }
    }
}

/// A scan result is a task row inside the list.
pub proof fn lemma_scan_forward_hits_task(rows: Seq<ListRow>, current: int, o: int)
    requires
        0 <= current < rows.len(),
    ensures
        scan_forward(rows, current, o) matches Some(i) ==> 0 <= i < rows.len() && is_task_row(
            rows,
            i,
        ),
    decreases rows.len() + 1 - o,
{
    if 1 <= o <= rows.len() {
        lemma_scan_forward_hits_task(rows, current, o + 1);
    }
}

/// A backward scan result is a task row inside the list.
pub proof fn lemma_scan_backward_hits_task(rows: Seq<ListRow>, current: int, o: int)
    requires
        0 <= current < rows.len(),
    ensures
        scan_backward(rows, current, o) matches Some(i) ==> 0 <= i < rows.len() && is_task_row(
            rows,
            i,
        ),
    decreases rows.len() + 1 - o,
{
    if 1 <= o <= rows.len() {
        lemma_scan_backward_hits_task(rows, current, o + 1);
    }
}

/// Scanning forward reaches every row within `len` steps: when some row
/// from the step `o` on is a task row, the scan finds a task row.
pub proof fn lemma_scan_forward_finds(rows: Seq<ListRow>, current: int, o: int, r: int)
    requires
        0 <= current < rows.len(),
        1 <= o,
        0 <= r < rows.len(),
        is_task_row(rows, r),
        o <= (if r > current {
            r - current
        } else {
            rows.len() - current + r
        }),
    ensures
        scan_forward(rows, current, o) is Some,
    decreases rows.len() + 1 - o,
{
    let len = rows.len() as int;
    let target = if r > current {
        r - current
    } else {
        len - current + r
    };
    if o == target {
        assert(forward_index(current, o, len) == r) by {
            if r > current {
                assert((current + (r - current)) % len == r) by (nonlinear_arith)
                    requires
                        0 <= r < len,
                ;
            } else {
                assert((current + (len - current + r)) % len == r) by (nonlinear_arith)
                    requires
                        0 <= r < len,
                ;
            }
        }
    } else {
        lemma_scan_forward_finds(rows, current, o + 1, r);
    }
}

/// The state of grouping after the tasks `done` were placed: group names in
/// group order, each present group named once, and each group's tasks those
/// of `done` in that group.
pub open spec fn groups_inv(gn: Seq<Seq<char>>, mv: Seq<Seq<Task>>, done: Seq<Task>) -> bool {
    &&& gn.len() == mv.len()
    &&& forall|i: int, j: int| 0 <= i < j < gn.len() ==> group_before(gn[i], gn[j])
    &&& forall|k: int| 0 <= k < done.len() ==> gn.contains(task_group(done[k]))
    &&& forall|i: int| 0 <= i < gn.len() ==> has_member(done, #[trigger] gn[i])
    &&& forall|i: int| 0 <= i < mv.len() ==> #[trigger] mv[i] == group_members(gn[i], done)
}

/// Some task of `done` is in group `name`.
pub open spec fn has_member(done: Seq<Task>, name: Seq<char>) -> bool {
    exists|k: int| 0 <= k < done.len() && task_group(done[k]) == name
}

/// Placing a task into the group at `pos`, which is its own group.
proof fn lemma_add_to_group(
    gn: Seq<Seq<char>>,
    mv: Seq<Seq<Task>>,
    done: Seq<Task>,
    t: Task,
    pos: int,
)
    requires
        groups_inv(gn, mv, done),
        0 <= pos < gn.len(),
        gn[pos] == task_group(t),
    ensures
        groups_inv(gn, mv.update(pos, mv[pos].push(t)), done.push(t)),
{
    let done2 = done.push(t);
    let mv2 = mv.update(pos, mv[pos].push(t));
    assert(done2.drop_last() =~= done);
    assert forall|i: int| 0 <= i < mv2.len() implies #[trigger] mv2[i] == group_members(
        gn[i],
        done2,
    ) by {
        reveal(Seq::filter);
        if i != pos {
            lemma_group_order(gn[i], gn[pos], gn[i]);
            if i < pos {
                assert(group_before(gn[i], gn[pos]));
            } else {
                assert(group_before(gn[pos], gn[i]));
            }
        }
    }
    assert forall|k: int| 0 <= k < done2.len() implies gn.contains(task_group(done2[k])) by {
        if k == done.len() {
            assert(gn[pos] == task_group(done2[k]));
        } else {
            assert(done2[k] == done[k]);
        }
    }
    assert forall|i: int| 0 <= i < gn.len() implies has_member(done2, #[trigger] gn[i]) by {
        let k = choose|k: int| 0 <= k < done.len() && task_group(done[k]) == gn[i];
        assert(done2[k] == done[k]);
    }
}

/// Opening a new group at `pos` for a task whose group is not present yet.
proof fn lemma_insert_group(
    gn: Seq<Seq<char>>,
    mv: Seq<Seq<Task>>,
    done: Seq<Task>,
    t: Task,
    pos: int,
)
    requires
        groups_inv(gn, mv, done),
        0 <= pos <= gn.len(),
        forall|j: int| 0 <= j < pos ==> group_before(#[trigger] gn[j], task_group(t)),
        forall|j: int| pos <= j < gn.len() ==> group_before(task_group(t), #[trigger] gn[j]),
    ensures
        groups_inv(gn.insert(pos, task_group(t)), mv.insert(pos, seq![t]), done.push(t)),
{
    let name = task_group(t);
    let done2 = done.push(t);
    let gn2 = gn.insert(pos, name);
    let mv2 = mv.insert(pos, seq![t]);
    assert(done2.drop_last() =~= done);
    assert forall|j: int| 0 <= j < gn.len() implies #[trigger] gn[j] != name by {
        lemma_group_order(gn[j], name, gn[j]);
    }
    assert forall|k: int| 0 <= k < done.len() implies task_group(#[trigger] done[k]) != name by {
        assert(gn.contains(task_group(done[k])));
    }
    lemma_filter_none(done, |x: Task| task_group(x) == name);
    assert forall|i: int, j: int| 0 <= i < j < gn2.len() implies group_before(gn2[i], gn2[j]) by {
        if i < pos && j < pos {
        } else if i < pos && j == pos {
        } else if i < pos {
            assert(gn2[j] == gn[j - 1]);
        } else if i == pos {
            assert(gn2[j] == gn[j - 1]);
        } else {
            assert(gn2[i] == gn[i - 1] && gn2[j] == gn[j - 1]);
        }
    }
    assert forall|i: int| 0 <= i < mv2.len() implies #[trigger] mv2[i] == group_members(
        gn2[i],
        done2,
    ) by {
        reveal(Seq::filter);
        if i == pos {
            assert(group_members(name, done) == Seq::<Task>::empty());
            assert(mv2[i] =~= Seq::<Task>::empty().push(t));
        } else {
            let oi = if i < pos {
                i
            } else {
                i - 1
            };
            assert(mv2[i] == mv[oi] && gn2[i] == gn[oi]);
            assert(gn[oi] != name);
        }
    }
    assert forall|k: int| 0 <= k < done2.len() implies gn2.contains(task_group(done2[k])) by {
        if k == done.len() {
            assert(gn2[pos] == task_group(done2[k]));
        } else {
            assert(done2[k] == done[k]);
            let i = choose|i: int| 0 <= i < gn.len() && gn[i] == task_group(done[k]);
            if i < pos {
                assert(gn2[i] == gn[i]);
            } else {
                assert(gn2[i + 1] == gn[i]);
            }
        }
    }
    assert forall|i: int| 0 <= i < gn2.len() implies has_member(done2, #[trigger] gn2[i]) by {
        if i == pos {
            assert(task_group(done2[done.len() as int]) == gn2[i]);
        } else {
            let oi = if i < pos {
                i
            } else {
                i - 1
            };
            assert(gn2[i] == gn[oi]);
            assert(has_member(done, gn[oi]));
            let k = choose|k: int| 0 <= k < done.len() && task_group(done[k]) == gn[oi];
            assert(done2[k] == done[k]);
        }
    }
}

/// Every group of a finished grouping holds at least one task.
proof fn lemma_groups_nonempty(gn: Seq<Seq<char>>, mv: Seq<Seq<Task>>, done: Seq<Task>, i: int)
    requires
        groups_inv(gn, mv, done),
        0 <= i < gn.len(),
    ensures
        mv[i].len() > 0,
{
    broadcast use Seq::lemma_filter_contains;

    assert(has_member(done, gn[i]));
    let k = choose|k: int| 0 <= k < done.len() && task_group(done[k]) == gn[i];
    let pred = |x: Task| task_group(x) == gn[i];
    assert(pred(done[k]));
    assert(done.filter(pred).contains(done[k]));
}

/// The group names as plain values.
pub open spec fn names_view(names: Seq<String>) -> Seq<Seq<char>> {
    names.map_values(|s: String| s@)
}

/// The groups' tasks as plain values.
pub open spec fn members_view(members: Seq<Vec<Task>>) -> Seq<Seq<Task>> {
    members.map_values(|v: Vec<Task>| v@)
}

/// Places one task into its group, opening the group if needed.
fn place_task(
    names: &mut Vec<String>,
    members: &mut Vec<Vec<Task>>,
    Ghost(done): Ghost<Seq<Task>>,
    t: Task,
)
    requires
        groups_inv(names_view(old(names)@), members_view(old(members)@), done),
    ensures
        groups_inv(names_view(final(names)@), members_view(final(members)@), done.push(t)),
{
    let name = resolve_status_group(
        match &t.status {
            Some(s) => Some(s),
            None => None,
        },
    );
    let ghost gn = names_view(names@);
    let ghost mv = members_view(members@);
    let mut pos: usize = 0;
    while pos < names.len() && !(names[pos] == name) && group_precedes(
        names[pos].as_str(),
        name.as_str(),
    )
        invariant
            pos <= names@.len(),
            gn == names_view(names@),
            forall|j: int| 0 <= j < pos ==> group_before(#[trigger] gn[j], name@),
        decreases names@.len() - pos,
    {
        pos = pos + 1;
    }
    if pos < names.len() && names[pos] == name {
        proof {
            lemma_add_to_group(gn, mv, done, t, pos as int);
        }
        members[pos].push(t);
        proof {
            assert(members_view(members@) =~= mv.update(pos as int, mv[pos as int].push(t)));
        }
    } else {
        proof {
            assert forall|j: int| pos <= j < gn.len() implies group_before(
                task_group(t),
                #[trigger] gn[j],
            ) by {
                lemma_group_order(gn[pos as int], name@, gn[j]);
                lemma_group_order(name@, gn[pos as int], gn[j]);
            }
            lemma_insert_group(gn, mv, done, t, pos as int);
        }
        names.insert(pos, name);
        let mut group: Vec<Task> = Vec::new();
        group.push(t);
        members.insert(pos, group);
        proof {
            assert(names_view(names@) =~= gn.insert(pos as int, task_group(t)));
            assert(members_view(members@) =~= mv.insert(pos as int, seq![t]));
        }
    }
}

/// Splits sorted tasks into their groups, in group order.
fn build_groups(sorted: Vec<Task>) -> (r: (Vec<String>, Vec<Vec<Task>>))
    ensures
        groups_inv(names_view(r.0@), members_view(r.1@), sorted@),
{
    let ghost sv = sorted@;
    let n = sorted.len();
    let mut rest = reversed(sorted);
    let mut names: Vec<String> = Vec::new();
    let mut members: Vec<Vec<Task>> = Vec::new();
    proof {
        assert(sv.take(0) =~= Seq::<Task>::empty());
        assert(names_view(names@) =~= Seq::<Seq<char>>::empty());
        assert(members_view(members@) =~= Seq::<Seq<Task>>::empty());
    }
    while rest.len() > 0
        invariant
            n == sv.len(),
            rest@.len() <= n,
            forall|j: int| 0 <= j < rest@.len() ==> #[trigger] rest@[j] == sv[n - 1 - j],
            groups_inv(names_view(names@), members_view(members@), sv.take(n - rest@.len())),
        decreases rest.len(),
    {
        let t = rest.pop().unwrap();
        let ghost k = n - rest@.len() - 1;
        assert(t == sv[k]);
        assert(sv.take(k + 1) =~= sv.take(k).push(t));
        place_task(&mut names, &mut members, Ghost(sv.take(k)), t);
    }
    assert(sv.take(n as int) =~= sv);
    (names, members)
}

/// Lays out the rows of the groups: each header followed by its tasks.
fn layout_rows(names: Vec<String>, members: Vec<Vec<Task>>, Ghost(sv): Ghost<Seq<Task>>) -> (rows:
    Vec<ListRow>)
    requires
        groups_inv(names_view(names@), members_view(members@), sv),
    ensures
        rows@.map_values(|r: ListRow| row_view(r)) == rows_for(names_view(names@), sv),
        names@.len() > 0 ==> rows@.len() >= 2 && rows@[0] is Header && rows@[1] is Task,
        names@.len() == 0 ==> rows@.len() == 0,
{
    let ghost gnames = names_view(names@);
    let ghost mv = members_view(members@);
    let g = names.len();
    let mut rev_names = reversed(names);
    let mut rev_members = reversed(members);
    let mut rows: Vec<ListRow> = Vec::new();
    let ghost mut done: int = 0;
    proof {
        assert(gnames.take(0).map_values(|nm: Seq<char>| group_rows(nm, sv)) =~= Seq::<
            Seq<RowView>,
        >::empty());
        assert(rows@.map_values(|r: ListRow| row_view(r)) =~= Seq::<RowView>::empty());
    }
    while rev_names.len() > 0
        invariant
            g == gnames.len(),
            groups_inv(gnames, mv, sv),
            rev_names@.len() == rev_members@.len(),
            done == g - rev_names@.len(),
            0 <= done <= g,
            forall|j: int|
                0 <= j < rev_names@.len() ==> (#[trigger] rev_names@[j])@ == gnames[g - 1 - j],
            forall|j: int|
                0 <= j < rev_members@.len() ==> (#[trigger] rev_members@[j])@ == mv[g - 1 - j],
            rows@.map_values(|r: ListRow| row_view(r)) == gnames.take(done).map_values(
                |nm: Seq<char>| group_rows(nm, sv),
            ).flatten(),
            done > 0 ==> rows@.len() >= 2 && rows@[0] is Header && rows@[1] is Task,
        decreases rev_names.len(),
    {
        let nm = rev_names.pop().unwrap();
        let grp = rev_members.pop().unwrap();
        let ghost before_rows = rows@.map_values(|r: ListRow| row_view(r));
        let ghost old_rows = rows@;
        let ghost gm = mv[done];
        proof {
            lemma_groups_nonempty(gnames, mv, sv, done);
            assert(gm == group_members(gnames[done], sv));
        }
        let count = grp.len();
        let label = format_group_label(nm.as_str(), count);
        rows.push(ListRow::Header { label, count });
        let ghost after_header = rows@;
        let mut tasks_rev = reversed(grp);
        while tasks_rev.len() > 0
            invariant
                count == gm.len(),
                tasks_rev@.len() <= count,
                forall|j: int|
                    0 <= j < tasks_rev@.len() ==> #[trigger] tasks_rev@[j] == gm[count - 1 - j],
                rows@.len() == after_header.len() + (count - tasks_rev@.len()),
                forall|j: int|
                    0 <= j < after_header.len() ==> #[trigger] rows@[j] == after_header[j],
                forall|j: int|
                    after_header.len() <= j < rows@.len() ==> #[trigger] rows@[j]
                        == ListRow::Task(gm[j - after_header.len()]),
            decreases tasks_rev.len(),
        {
            let t = tasks_rev.pop().unwrap();
            rows.push(ListRow::Task(t));
        }
        proof {
            let block = group_rows(gnames[done], sv);
            assert(before_rows.len() + 1 == after_header.len());
            let mapped = rows@.map_values(|r: ListRow| row_view(r));
            assert(mapped =~= before_rows + block) by {
                assert forall|j: int| 0 <= j < rows@.len() implies #[trigger] mapped[j] == (
                before_rows + block)[j] by {
                    if j < before_rows.len() {
                        assert(rows@[j] == after_header[j]);
                        assert(after_header[j] == old_rows[j]);
                    } else if j == before_rows.len() {
                    } else {
                        assert(rows@[j] == ListRow::Task(gm[j - after_header.len()]));
                    }
                }
            }
            let f = |nm: Seq<char>| group_rows(nm, sv);
            assert(gnames.take(done + 1).map_values(f) =~= gnames.take(done).map_values(f).push(
                block,
            ));
            gnames.take(done).map_values(f).lemma_flatten_push(block);
            if done == 0 {
                assert(rows@[1] == ListRow::Task(gm[0]));
            } else {
                assert(rows@[0] == old_rows[0] && rows@[1] == old_rows[1]);
            }
            done = done + 1;
        }
    }
    proof {
        assert(gnames.take(g as int) =~= gnames);
        if g == 0 {
            assert(rows@.map_values(|r: ListRow| row_view(r)).len() == 0);
        }
    }
    rows
}

impl GroupedTaskList {
    /// The rows as plain values.
    pub open spec fn rows_view(&self) -> Seq<RowView> {
        self.rows@.map_values(|r: ListRow| row_view(r))
    }

    /// The selection is absent or on an existing row.
    pub open spec fn wf(&self) -> bool {
        selection_ok(self.rows@, self.selected)
    }

    /// An empty list with nothing selected.
    pub fn new() -> (l: Self)
        ensures
            l.rows@.len() == 0,
            l.selected is None,
            l.wf(),
    {
        GroupedTaskList { rows: Vec::new(), selected: None }
    }

    /// Moves the selection to the next task row, skipping headers and
    /// wrapping around; with no task row it stays where it is.
    pub fn select_next(&mut self)
        requires
            old(self).wf(),
        ensures
            final(self).rows@ == old(self).rows@,
            final(self).selected == next_selection(old(self).rows@, old(self).selected),
            final(self).wf(),
    {
        let len = self.rows.len();
        if len == 0 {
            return;
        }
        let current = match self.selected {
            Some(c) => c,
            None => 0,
        };
        let mut offset: usize = 1;
        while offset <= len
            invariant
                len == self.rows@.len(),
                len > 0,
                current < len,
                1 <= offset <= len + 1,
                scan_forward(self.rows@, current as int, 1) == scan_forward(
                    self.rows@,
                    current as int,
                    offset as int,
                ),
                self.wf(),
                self.rows@ == old(self).rows@,
                self.selected == old(self).selected,
                current == match old(self).selected {
                    Some(c) => c,
                    None => 0,
                },
            decreases len + 1 - offset,
        {
            let next = if offset <= len - 1 - current {
                current + offset
            } else {
                offset - (len - current)
            };
            assert(next == forward_index(current as int, offset as int, len as int)) by {
                if offset <= len - 1 - current {
                    assert((current + offset) % (len as int) == current + offset) by (
                    nonlinear_arith)
                        requires
                            0 <= current + offset < len,
                    ;
                } else {
                    assert((current + offset) % (len as int) == current + offset - len) by (
                    nonlinear_arith)
                        requires
                            len <= current + offset < 2 * len,
                    ;
                }
            }
            match &self.rows[next] {
                ListRow::Task(_) => {
                    assert(is_task_row(self.rows@, next as int));
                    assert(scan_forward(self.rows@, current as int, offset as int) == Some(next as int));
                    self.selected = Some(next);
                    return;
                },
                ListRow::Header { .. } => {},
            }
            assert(!is_task_row(self.rows@, next as int));
            if offset == len {
                assert(scan_forward(self.rows@, current as int, offset as int + 1) is None);
                return;
            }
            offset = offset + 1;
        }
    }

    /// Moves the selection to the previous task row, skipping headers and
    /// wrapping around; with no task row it stays where it is.
    pub fn select_previous(&mut self)
        requires
            old(self).wf(),
        ensures
            final(self).rows@ == old(self).rows@,
            final(self).selected == previous_selection(old(self).rows@, old(self).selected),
            final(self).wf(),
    {
        let len = self.rows.len();
        if len == 0 {
            return;
        }
        let current = match self.selected {
            Some(c) => c,
            None => 0,
        };
        let mut offset: usize = 1;
        while offset <= len
            invariant
                len == self.rows@.len(),
                len > 0,
                current < len,
                1 <= offset <= len + 1,
                scan_backward(self.rows@, current as int, 1) == scan_backward(
                    self.rows@,
                    current as int,
                    offset as int,
                ),
                self.wf(),
                self.rows@ == old(self).rows@,
                self.selected == old(self).selected,
                current == match old(self).selected {
                    Some(c) => c,
                    None => 0,
                },
            decreases len + 1 - offset,
        {
            let prev = if current >= offset {
                current - offset
            } else {
                len - (offset - current)
            };
            assert(prev == backward_index(current as int, offset as int, len as int)) by {
                if current >= offset {
                    assert((current + len - offset) % (len as int) == current - offset) by (
                    nonlinear_arith)
                        requires
                            len <= current + len - offset < 2 * len,
                    ;
                } else {
                    assert((current + len - offset) % (len as int) == current + len - offset) by (
                    nonlinear_arith)
                        requires
                            0 <= current + len - offset < len,
                    ;
                }
            }
            match &self.rows[prev] {
                ListRow::Task(_) => {
                    assert(is_task_row(self.rows@, prev as int));
                    assert(scan_backward(self.rows@, current as int, offset as int) == Some(prev as int));
                    self.selected = Some(prev);
                    return;
                },
                ListRow::Header { .. } => {},
            }
            assert(!is_task_row(self.rows@, prev as int));
            if offset == len {
                assert(scan_backward(self.rows@, current as int, offset as int + 1) is None);
                return;
            }
            offset = offset + 1;
        }
    }

    /// Selects the first task row, if there is one.
    pub fn select_first(&mut self)
        requires
            old(self).wf(),
        ensures
            final(self).rows@ == old(self).rows@,
            final(self).selected == match first_task_from(old(self).rows@, 0) {
                Some(i) => Some(i as usize),
                None => old(self).selected,
            },
            final(self).wf(),
    {
        let mut i: usize = 0;
        while i < self.rows.len()
            invariant
                i <= self.rows@.len(),
                first_task_from(self.rows@, 0) == first_task_from(self.rows@, i as int),
                self.wf(),
                self.rows@ == old(self).rows@,
                self.selected == old(self).selected,
            decreases self.rows@.len() - i,
        {
            match &self.rows[i] {
                ListRow::Task(_) => {
                    self.selected = Some(i);
                    return;
                },
                ListRow::Header { .. } => {},
            }
            i = i + 1;
        }
    }

    /// The selected task, or `None` when nothing is selected or the
    /// selection is on a header.
    pub fn selected_task(&self) -> (t: Option<&Task>)
        ensures
            t == match self.selected {
                Some(i) => if i < self.rows@.len() {
                    match self.rows@[i as int] {
                        ListRow::Task(task) => Some(&task),
                        ListRow::Header { .. } => None,
                    }
                } else {
                    None
                },
                None => None,
            },
    {
        match self.selected {
            Some(i) => if i < self.rows.len() {
                match &self.rows[i] {
                    ListRow::Task(task) => Some(task),
                    ListRow::Header { .. } => None,
                }
            } else {
                None
            },
            None => None,
        }
    }

    /// Selects a raw row index (which may be a header); an index past the end
    /// is ignored, and `None` clears the selection.
    pub fn select(&mut self, index: Option<usize>)
        ensures
            final(self).rows@ == old(self).rows@,
            final(self).selected == match index {
                Some(i) => if i < old(self).rows@.len() {
                    Some(i)
                } else {
                    old(self).selected
                },
                None => None,
            },
    {
        match index {
            Some(i) => {
                if i < self.rows.len() {
                    self.selected = Some(i);
                }
            },
            None => {
                self.selected = None;
            },
        }
    }

    /// All rows.
    pub fn rows(&self) -> (r: &Vec<ListRow>)
        ensures
            r@ == self.rows@,
    {
        &self.rows
    }

    /// The selected row index.
    pub fn state(&self) -> (s: Option<usize>)
        ensures
            s == self.selected,
    {
        self.selected
    }

    /// Groups tasks by status (see `is_grouping`) and selects the first task.
    pub fn from_tasks(tasks: Vec<Task>) -> (l: Self)
        ensures
            is_grouping(l.rows_view(), tasks@),
            l.wf(),
            tasks@.len() == 0 ==> l.rows@.len() == 0 && l.selected is None,
            tasks@.len() > 0 ==> l.selected == Some(1usize) && l.rows@[0] is Header
                && l.rows@[1] is Task,
    {
        let ghost input = tasks@;
        let sorted = sort_tasks(tasks);
        let ghost sv = sorted@;
        let (names, members) = build_groups(sorted);
        let ghost gnames = names_view(names@);
        proof {
            if sv.len() > 0 {
                assert(gnames.contains(task_group(sv[0])));
            }
            if input.len() == 0 {
                let perm = choose|perm: Seq<int>| crate::sorting::is_stable_order(sv, input, task_ranks(input), perm);
                assert(sv.len() == 0);
            } else {
                let perm = choose|perm: Seq<int>| crate::sorting::is_stable_order(sv, input, task_ranks(input), perm);
                assert(sv.len() == input.len());
            }
        }
        let rows = layout_rows(names, members, Ghost(sv));
        let selected = if rows.len() > 0 {
            Some(1)
        } else {
            None
        };
        let l = GroupedTaskList { rows, selected };
        proof {
            assert(l.rows_view() == rows_for(gnames, sv));
            assert(is_grouping(l.rows_view(), input));
        }
        l
    }
}

/// Navigating never lands on a header: after moving forward or backward in a
/// well-formed list that has a task row, the selected row is a task row.
pub proof fn lemma_navigation_selects_tasks(rows: Seq<ListRow>, selected: Option<usize>, r: int)
    requires
        selection_ok(rows, selected),
        0 <= r < rows.len(),
        rows.len() <= usize::MAX,
        is_task_row(rows, r),
    ensures
        next_selection(rows, selected) matches Some(i) && i < rows.len() && is_task_row(
            rows,
            i as int,
        ),
        previous_selection(rows, selected) matches Some(j) && j < rows.len() && is_task_row(
            rows,
            j as int,
        ),
{
    let current = match selected {
        Some(c) => c as int,
        None => 0,
    };
    lemma_scan_forward_finds(rows, current, 1, r);
    lemma_scan_forward_hits_task(rows, current, 1);
    lemma_scan_backward_finds(rows, current, 1, r);
    lemma_scan_backward_hits_task(rows, current, 1);
}

/// Scanning backward reaches every row within `len` steps.
pub proof fn lemma_scan_backward_finds(rows: Seq<ListRow>, current: int, o: int, r: int)
    requires
        0 <= current < rows.len(),
        1 <= o,
        0 <= r < rows.len(),
        is_task_row(rows, r),
        o <= (if r < current {
            current - r
        } else {
            rows.len() + current - r
        }),
    ensures
        scan_backward(rows, current, o) is Some,
    decreases rows.len() + 1 - o,
{
    let len = rows.len() as int;
    let target = if r < current {
        current - r
    } else {
        len + current - r
    };
    if o == target {
        assert(backward_index(current, o, len) == r) by {
            if r < current {
                assert((current + len - (current - r)) % len == r) by (nonlinear_arith)
                    requires
                        0 <= r < len,
                ;
            } else {
                assert((current + len - (len + current - r)) % len == r) by (nonlinear_arith)
                    requires
                        0 <= r < len,
                ;
            }
        }
    } else {
        lemma_scan_backward_finds(rows, current, o + 1, r);
    }
}

/// The priority marker shown before a task name.
pub fn get_priority_indicator(priority: &Option<Priority>) -> (s: &'static str)
    ensures
        s@ == match *priority {
            Some(p) => if p.priority@ == "urgent"@ {
                "⚡"@
            } else if p.priority@ == "high"@ {
                "↑"@
            } else if p.priority@ == "low"@ {
                "↓"@
            } else {
                "•"@
            },
            None => "•"@,
        },
{
    match priority {
        Some(p) => if crate::text::str_eq(p.priority.as_str(), "urgent") {
            "⚡"
        } else if crate::text::str_eq(p.priority.as_str(), "high") {
            "↑"
        } else if crate::text::str_eq(p.priority.as_str(), "low") {
            "↓"
        } else {
            "•"
        },
        None => "•",
    }
}

/// Status-bar hints for the task list.
pub fn get_task_list_hints() -> (s: &'static str)
    ensures
        s@ == "j/k: Navigate | Enter: View | n: New | e: Edit | d: Delete"@,
{
    "j/k: Navigate | Enter: View | n: New | e: Edit | d: Delete"
}

} // verus!
