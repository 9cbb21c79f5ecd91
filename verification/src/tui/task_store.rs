//! The tasks of the open list as the interface keeps them: updates that the
//! server confirms, optimistic status changes and their rollback, removal of
//! deleted tasks, and the pickers opened on a task.
use vstd::prelude::*;

use crate::models::task::{Task, TaskStatus};
use crate::models::task_copy::{copies_of, copy_task, copy_tasks, same_task};
use crate::models::user::User;
use crate::text::{int_decimal, owned, push_str, u64_to_string};
use crate::tui::app::SessionRestore;
use crate::tui::widgets::task_detail::TaskDetailState;
use crate::tui::widgets::task_list::{
    first_task_from, is_grouping, lemma_grouping_members, row_view, rows_hold, GroupedTaskList, ListRow,
    RowView,
};
use crate::sorting::reversed;
use crate::tui::forms::{AssigneePicker, StatusPicker};

verus! {

/// The index of the first task with the given id.
pub open spec fn first_task_with_id(ts: Seq<Task>, id: Seq<char>) -> Option<int> {
    if exists|i: int| 0 <= i < ts.len() && (#[trigger] ts[i]).id@ == id {
        Some(
            choose|i: int|
                0 <= i < ts.len() && ts[i].id@ == id && forall|j: int|
                    0 <= j < i ==> (#[trigger] ts[j]).id@ != id,
        )
    } else {
        None
    }
}

/// A task with the id makes `first_task_with_id` find the first such task,
/// at or before it.
pub proof fn lemma_first_task_found(ts: Seq<Task>, id: Seq<char>, i: int)
    requires
        0 <= i < ts.len(),
        ts[i].id@ == id,
    ensures
        first_task_with_id(ts, id) matches Some(k) && 0 <= k <= i && ts[k].id@ == id
            && forall|j: int| 0 <= j < k ==> (#[trigger] ts[j]).id@ != id,
    decreases i,
{
    if exists|j: int| 0 <= j < i && (#[trigger] ts[j]).id@ == id {
        let j = choose|j: int| 0 <= j < i && (#[trigger] ts[j]).id@ == id;
        lemma_first_task_found(ts, id, j);
    } else {
        let k = choose|k: int|
            0 <= k < ts.len() && ts[k].id@ == id && forall|j: int|
                0 <= j < k ==> (#[trigger] ts[j]).id@ != id;
        assert(0 <= i < ts.len() && ts[i].id@ == id && forall|j: int|
            0 <= j < i ==> (#[trigger] ts[j]).id@ != id);
        if k < i {
            assert(ts[k].id@ != id);
        } else if k > i {
            assert(ts[i].id@ != id);
        }
    }
}

/// The index of the first task with the given id, if any.
fn find_task(tasks: &Vec<Task>, id: &str) -> (r: Option<usize>)
    ensures
        r matches Some(k) ==> k < tasks@.len() && tasks@[k as int].id@ == id@,
        match r {
            Some(k) => first_task_with_id(tasks@, id@) == Some(k as int),
            None => first_task_with_id(tasks@, id@) is None,
        },
{
    let mut i: usize = 0;
    while i < tasks.len()
        invariant
            i <= tasks@.len(),
            forall|j: int| 0 <= j < i ==> (#[trigger] tasks@[j]).id@ != id@,
        decreases tasks@.len() - i,
    {
        if crate::text::str_eq(tasks[i].id.as_str(), id) {
            proof {
                let ts = tasks@;
                assert(0 <= i < ts.len() && ts[i as int].id@ == id@);
                let m = first_task_with_id(ts, id@)->0;
                if m < i {
                    assert(ts[m].id@ != id@);
                } else if m > i {
                    assert(ts[i as int].id@ != id@);
                }
            }
            return Some(i);
        }
        i = i + 1;
    }
    None
}

/// Replaces the first task with the id of `updated` by it; returns whether
/// there was one.
pub fn replace_task_by_id(tasks: &mut Vec<Task>, updated: Task) -> (found: bool)
    ensures
        found == (first_task_with_id(old(tasks)@, updated.id@) is Some),
        final(tasks)@ == match first_task_with_id(old(tasks)@, updated.id@) {
            Some(k) => old(tasks)@.update(k, updated),
            None => old(tasks)@,
        },
{
    match find_task(tasks, updated.id.as_str()) {
        Some(k) => {
            tasks.set(k, updated);
            true
        },
        None => false,
    }
}

/// A status known only by its name.
pub open spec fn bare_status(name: String) -> TaskStatus {
    TaskStatus {
        id: None,
        status: name,
        color: None,
        type_field: None,
        orderindex: None,
        status_group: None,
    }
}

/// The task list after a status was chosen for a task: the first task with
/// the id gets a status known only by its name.
pub open spec fn with_status(tasks: Seq<Task>, task_id: Seq<char>, status: String) -> Seq<Task> {
    match first_task_with_id(tasks, task_id) {
        Some(k) => tasks.update(k, Task { status: Some(bare_status(status)), ..tasks[k] }),
        None => tasks,
    }
}

/// Sets the status of the first task with the given id to a status known
/// only by its name (the optimistic change before the server answers, or
/// the rollback when it refuses).
pub fn set_task_status(tasks: &mut Vec<Task>, task_id: &str, status: String) -> (found: bool)
    ensures
        found == (first_task_with_id(old(tasks)@, task_id@) is Some),
        final(tasks)@ == with_status(old(tasks)@, task_id@, status),
{
    match find_task(tasks, task_id) {
        Some(k) => {
            let ghost before = tasks@;
            let mut t = tasks.remove(k);
            t.status = Some(
                TaskStatus {
                    id: None,
                    status,
                    color: None,
                    type_field: None,
                    orderindex: None,
                    status_group: None,
                },
            );
            let ghost t1 = t;
            tasks.insert(k, t);
            proof {
                assert(t1 == Task { status: Some(bare_status(status)), ..before[k as int] });
                assert(before.remove(k as int).insert(k as int, t1) =~= before.update(k as int, t1));
            }
            true
        },
        None => false,
    }
}

/// Removes every task with the given id (a deleted task).
pub fn remove_task(tasks: Vec<Task>, task_id: &str) -> (r: Vec<Task>)
    ensures
        r@ == tasks@.filter(|t: Task| t.id@ != task_id@),
{
    let ghost orig = tasks@;
    let ghost pred = |t: Task| t.id@ != task_id@;
    let mut rev = reversed(tasks);
    let mut out: Vec<Task> = Vec::new();
    let n = rev.len();
    proof {
        reveal(Seq::filter);
        assert(orig.take(0).filter(pred) =~= Seq::<Task>::empty());
    }
    while rev.len() > 0
        invariant
            n == orig.len(),
            rev@.len() <= n,
            forall|j: int| 0 <= j < rev@.len() ==> #[trigger] rev@[j] == orig[n - 1 - j],
            out@ == orig.take(n - rev@.len()).filter(pred),
            pred == (|t: Task| t.id@ != task_id@),
        decreases rev.len(),
    {
        let x = rev.pop().unwrap();
        let ghost i = n - rev@.len() - 1;
        assert(x == orig[i]);
        let keep = !crate::text::str_eq(x.id.as_str(), task_id);
        proof {
            reveal(Seq::filter);
            assert(orig.take(i + 1).drop_last() =~= orig.take(i));
            assert(keep == pred(x));
        }
        if keep {
            out.push(x);
        }
    }
    assert(orig.take(n as int) =~= orig);
    out
}

/// The ids of some users, each once, in order of first appearance.
pub open spec fn distinct_ids(users: Seq<User>) -> Set<i64> {
    users.map_values(|u: User| u.id).to_set()
}

/// Opens the assignee picker on the members of the list, with the open
/// task's assignees picked (none without a task) and the cursor on the first
/// member.
pub fn open_assignee_picker(task: &Option<Task>, members: Vec<User>) -> (p: AssigneePicker)
    ensures
        p.members@ == members@,
        p.cursor == 0,
        p.selected@.no_duplicates(),
        p.selected@ == p.original@,
        p.selected@.to_set() == match task {
            Some(t) => distinct_ids(t.assignees@),
            None => Set::<i64>::empty(),
        },
{
    broadcast use vstd::seq_lib::group_seq_properties;

    let mut ids: Vec<i64> = Vec::new();
    match task {
        Some(t) => {
            let ghost us = t.assignees@;
            let mut i: usize = 0;
            while i < t.assignees.len()
                invariant
                    i <= us.len(),
                    us == t.assignees@,
                    ids@.no_duplicates(),
                    ids@.to_set() == us.take(i as int).map_values(|u: User| u.id).to_set(),
                decreases us.len() - i,
            {
                let id = t.assignees[i].id;
                let ghost before = ids@;
                let mut present = false;
                let mut j: usize = 0;
                while j < ids.len()
                    invariant
                        j <= ids@.len(),
                        present == exists|m: int| 0 <= m < j && ids@[m] == id,
                    decreases ids@.len() - j,
                {
                    if ids[j] == id {
                        present = true;
                    }
                    proof {
                        if present {
                            let m = choose|m: int| 0 <= m < j + 1 && ids@[m] == id;
                            assert(0 <= m < j + 1 && ids@[m] == id);
                        }
                    }
                    j = j + 1;
                }
                if !present {
                    ids.push(id);
                    proof {
                        assert forall|a: int, b: int| 0 <= a < b < ids@.len() implies ids@[a]
                            != ids@[b] by {
                            if b == before.len() {
                                assert(before.contains(before[a]));
                            } else {
                                assert(before[a] != before[b]);
                            }
                        }
                    }
                }
                proof {
                    let f = |u: User| u.id;
                    let prev = us.take(i as int).map_values(f);
                    assert(us.take(i + 1).map_values(f) =~= prev.push(id));
                    assert forall|x: i64| #[trigger] ids@.to_set().contains(x) == us.take(
                        i + 1,
                    ).map_values(f).to_set().contains(x) by {
                        vstd::seq_lib::lemma_seq_contains_after_push(prev, id, x);
                        assert(prev.to_set().contains(x) == prev.contains(x));
                        assert(before.to_set().contains(x) == before.contains(x));
                        if present {
                            let m = choose|m: int| 0 <= m < before.len() && before[m] == id;
                            assert(before.contains(id));
                            assert(ids@ == before);
                        } else {
                            assert(ids@ == before.push(id));
                            vstd::seq_lib::lemma_seq_contains_after_push(before, id, x);
                        }
                    }
                    assert(ids@.to_set() =~= us.take(i + 1).map_values(f).to_set());
                }
                i = i + 1;
            }
            assert(us.take(us.len() as int) =~= us);
        },
        None => {
            assert(ids@.to_set() =~= Set::<i64>::empty());
        },
    }
    let original = clone_ids(&ids);
    AssigneePicker { members, selected: ids, original, cursor: 0 }
}

/// A copy of some ids.
fn clone_ids(v: &Vec<i64>) -> (r: Vec<i64>)
    ensures
        r@ == v@,
{
    let mut r: Vec<i64> = Vec::new();
    let mut i: usize = 0;
    while i < v.len()
        invariant
            i <= v@.len(),
            r@ == v@.take(i as int),
        decreases v@.len() - i,
    {
        r.push(v[i]);
        assert(v@.take(i + 1) =~= v@.take(i as int).push(v@[i as int]));
        i = i + 1;
    }
    assert(v@.take(v@.len() as int) =~= v@);
    r
}

/// A status offered by the picker.
fn offered(name: &str, color: &str, order: u32, group: &str) -> (s: TaskStatus)
    ensures
        s.status@ == name@,
{
    TaskStatus {
        id: None,
        status: owned(name),
        color: Some(owned(color)),
        type_field: None,
        orderindex: Some(order),
        status_group: Some(owned(group)),
    }
}

/// Opens the status picker on a task: To Do, In Progress and Done are
/// offered, the cursor on the first. Returns the picker, the task's id and
/// its present status (to roll back to).
pub fn open_status_picker(task: &Task, status: &mut String) -> (r: (
    StatusPicker,
    String,
    Option<String>,
))
    ensures
        r.0.cursor == 0,
        r.0.statuses@.len() == 3,
        r.0.statuses@[0].status@ == "To Do"@,
        r.0.statuses@[1].status@ == "In Progress"@,
        r.0.statuses@[2].status@ == "Done"@,
        r.1 == task.id,
        r.2 == match task.status {
            Some(s) => Some(s.status),
            None => None,
        },
        final(status)@ == "Select new status (j/k navigate, Enter select, Esc cancel)"@,
{
    let mut statuses: Vec<TaskStatus> = Vec::new();
    statuses.push(offered("To Do", "#8794a6", 0, "todo"));
    statuses.push(offered("In Progress", "#4f46de", 1, "in_progress"));
    statuses.push(offered("Done", "#0f4a58", 2, "done"));
    let original = match &task.status {
        Some(s) => Some(s.status.clone()),
        None => None,
    };
    *status = owned("Select new status (j/k navigate, Enter select, Esc cancel)");
    (StatusPicker { statuses, cursor: 0 }, task.id.clone(), original)
}

/// A task the server sent back replaces the first task with its id, and
/// nothing else changes; an unknown id changes nothing.
pub proof fn lemma_replace_only_that_task(before: Seq<Task>, after: Seq<Task>, updated: Task)
    requires
        after == match first_task_with_id(before, updated.id@) {
            Some(k) => before.update(k, updated),
            None => before,
        },
    ensures
        after.len() == before.len(),
        forall|i: int|
            0 <= i < before.len() && before[i].id@ != updated.id@ ==> after[i] == before[i],
        (exists|i: int| 0 <= i < before.len() && before[i].id@ == updated.id@) ==> exists|k: int|
            0 <= k < after.len() && after[k] == updated,
{
    if exists|i: int| 0 <= i < before.len() && before[i].id@ == updated.id@ {
        let i = choose|i: int| 0 <= i < before.len() && before[i].id@ == updated.id@;
        lemma_first_task_found(before, updated.id@, i);
        let k = first_task_with_id(before, updated.id@)->0;
        assert(0 <= k < before.len() && before[k].id@ == updated.id@);
        assert(after[k] == updated);
    }
}

/// Changing a task's status and rolling it back to the name it had leaves
/// every other task and every other field of the task as they were.
pub proof fn lemma_status_rollback(
    t0: Seq<Task>,
    t1: Seq<Task>,
    t2: Seq<Task>,
    task_id: Seq<char>,
    new_status: String,
    old_status: String,
)
    requires
        t1 == match first_task_with_id(t0, task_id) {
            Some(k) => t0.update(k, Task { status: Some(bare_status(new_status)), ..t0[k] }),
            None => t0,
        },
        t2 == match first_task_with_id(t1, task_id) {
            Some(k) => t1.update(k, Task { status: Some(bare_status(old_status)), ..t1[k] }),
            None => t1,
        },
    ensures
        t2.len() == t0.len(),
        forall|i: int| 0 <= i < t0.len() && t0[i].id@ != task_id ==> t2[i] == t0[i],
        forall|i: int|
            0 <= i < t0.len() && t0[i].id@ == task_id ==> t2[i] == t0[i] || t2[i] == (Task {
                status: Some(bare_status(old_status)),
                ..t0[i]
            }),
{
    if exists|i: int| 0 <= i < t0.len() && t0[i].id@ == task_id {
        let i = choose|i: int| 0 <= i < t0.len() && t0[i].id@ == task_id;
        lemma_first_task_found(t0, task_id, i);
        let k = first_task_with_id(t0, task_id)->0;
        assert(t1[k].id@ == task_id);
        lemma_first_task_found(t1, task_id, k);
        let k1 = first_task_with_id(t1, task_id)->0;
        if k1 < k {
            assert(t1[k1] == t0[k1]);
        }
        assert(k1 == k);
    } else {
        assert(first_task_with_id(t0, task_id) is None);
        assert(t1 == t0);
    }
}


/// Whether a row shows the task with the id.
pub open spec fn row_has_task(r: ListRow, id: Seq<char>) -> bool {
    r matches ListRow::Task(t) && t.id@ == id
}

/// The index of the first row that shows the task with the id.
pub open spec fn first_row_with_task(rows: Seq<ListRow>, id: Seq<char>) -> Option<int> {
    if exists|i: int| 0 <= i < rows.len() && row_has_task(#[trigger] rows[i], id) {
        Some(
            choose|i: int|
                0 <= i < rows.len() && row_has_task(rows[i], id) && forall|j: int|
                    0 <= j < i ==> !row_has_task(#[trigger] rows[j], id),
        )
    } else {
        None
    }
}

/// The number of task rows.
pub open spec fn task_row_count(rows: Seq<ListRow>) -> nat
    decreases rows.len(),
{
    if rows.len() == 0 {
        0
    } else {
        task_row_count(rows.drop_last()) + if rows.last() is Task {
            1nat
        } else {
            0nat
        }
    }
}

/// The number of task rows.
fn count_task_rows(rows: &Vec<ListRow>) -> (n: usize)
    ensures
        n == task_row_count(rows@),
{
    let mut n: usize = 0;
    let mut i: usize = 0;
    while i < rows.len()
        invariant
            i <= rows@.len(),
            n <= i,
            n == task_row_count(rows@.take(i as int)),
        decreases rows@.len() - i,
    {
        assert(rows@.take(i + 1).drop_last() =~= rows@.take(i as int));
        match &rows[i] {
            ListRow::Task(_) => {
                n = n + 1;
            },
            ListRow::Header { .. } => {},
        }
        i = i + 1;
    }
    assert(rows@.take(rows@.len() as int) =~= rows@);
    n
}

/// The index of the first row that shows the task with the id.
fn find_task_row(rows: &Vec<ListRow>, id: &str) -> (r: Option<usize>)
    ensures
        r matches Some(k) ==> k < rows@.len(),
        match r {
            Some(k) => first_row_with_task(rows@, id@) == Some(k as int),
            None => first_row_with_task(rows@, id@) is None,
        },
{
    let mut i: usize = 0;
    while i < rows.len()
        invariant
            i <= rows@.len(),
            forall|j: int| 0 <= j < i ==> !row_has_task(#[trigger] rows@[j], id@),
        decreases rows@.len() - i,
    {
        let hit = match &rows[i] {
            ListRow::Task(t) => crate::text::str_eq(t.id.as_str(), id),
            ListRow::Header { .. } => false,
        };
        if hit {
            proof {
                let rs = rows@;
                assert(row_has_task(rs[i as int], id@));
                let m = first_row_with_task(rs, id@)->0;
                if m < i {
                    assert(!row_has_task(rs[m], id@));
                } else if m > i {
                    assert(!row_has_task(rs[i as int], id@));
                }
            }
            return Some(i);
        }
        i = i + 1;
    }
    None
}

/// The selection that `select_first` leaves.
pub open spec fn first_selection(rows: Seq<ListRow>, selected: Option<usize>) -> Option<usize> {
    match first_task_from(rows, 0) {
        Some(i) => Some(i as usize),
        None => selected,
    }
}

/// What taking a freshly built task list does: while a session is restored
/// with a saved task, the row of that task is selected (`Restored to Tasks
/// view - {n} task(s) loaded`), or, when it is not there, the first task
/// (`Saved task not found, showing tasks`); otherwise the first task is
/// selected (`Loaded {n} task(s)`). `n` counts the task rows.
pub open spec fn tasks_loaded_post(
    rows: Seq<ListRow>,
    selected: Option<usize>,
    restoring: bool,
    task_id: Option<String>,
    new_selected: Option<usize>,
    status: Seq<char>,
) -> bool {
    let n = int_decimal(task_row_count(rows) as int);
    if restoring && task_id is Some {
        match first_row_with_task(rows, task_id->0@) {
            Some(k) => new_selected == Some(k as usize) && status == "Restored to Tasks view - "@
                + n + " task(s) loaded"@,
            None => new_selected == first_selection(rows, selected) && status
                == "Saved task not found, showing tasks"@,
        }
    } else {
        new_selected == first_selection(rows, selected) && status == "Loaded "@ + n + " task(s)"@
    }
}

/// Takes the task list built from the tasks that arrived for the open list:
/// selects a task (see `tasks_loaded_post`) and ends a session restore.
pub fn tasks_loaded(list: &mut GroupedTaskList, restore: &mut SessionRestore, status: &mut String)
    requires
        old(list).wf(),
    ensures
        final(list).rows@ == old(list).rows@,
        final(list).wf(),
        *final(restore) == (SessionRestore { restoring: false, ..*old(restore) }),
        tasks_loaded_post(
            old(list).rows@,
            old(list).selected,
            old(restore).restoring,
            old(restore).task_id,
            final(list).selected,
            final(status)@,
        ),
{
    let n = count_task_rows(list.rows());
    let count = u64_to_string(n as u64);
    let mut found: Option<usize> = None;
    let mut restored = false;
    if restore.restoring {
        match &restore.task_id {
            Some(id) => {
                restored = true;
                found = find_task_row(list.rows(), id.as_str());
            },
            None => {},
        }
    }
    restore.restoring = false;
    match found {
        Some(k) => {
            list.select(Some(k));
            let mut msg = owned("Restored to Tasks view - ");
            push_str(&mut msg, count.as_str());
            push_str(&mut msg, " task(s) loaded");
            *status = msg;
        },
        None => {
            list.select_first();
            if restored {
                *status = owned("Saved task not found, showing tasks");
            } else {
                let mut msg = owned("Loaded ");
                push_str(&mut msg, count.as_str());
                push_str(&mut msg, " task(s)");
                *status = msg;
            }
        },
    }
}


/// Keeps the selection of a task list rebuilt after a change: the task
/// selected before (`previous`) is selected again by its id where it still has
/// a row; where it has none, the first task is selected; without a previous
/// task the selection stays.
pub fn keep_selection(list: &mut GroupedTaskList, previous: &Option<String>)
    requires
        old(list).wf(),
    ensures
        final(list).rows@ == old(list).rows@,
        final(list).wf(),
        final(list).selected == match previous {
            Some(id) => match first_row_with_task(old(list).rows@, id@) {
                Some(k) => Some(k as usize),
                None => first_selection(old(list).rows@, old(list).selected),
            },
            None => old(list).selected,
        },
{
    match previous {
        Some(id) => {
            match find_task_row(list.rows(), id.as_str()) {
                Some(k) => list.select(Some(k)),
                None => list.select_first(),
            }
        },
        None => {},
    }
}

/// The id of the task on the selected row, when a task row is selected.
pub open spec fn selected_task_id(rows: Seq<ListRow>, selected: Option<usize>) -> Option<Seq<char>> {
    match selected {
        Some(i) => if i < rows.len() {
            match rows[i as int] {
                ListRow::Task(t) => Some(t.id@),
                ListRow::Header { .. } => None,
            }
        } else {
            None
        },
        None => None,
    }
}

/// The selection of a list just built from `n` tasks: the first task row.
pub open spec fn fresh_selection(n: nat) -> Option<usize> {
    if n == 0 {
        None
    } else {
        Some(1usize)
    }
}

/// The selection that `keep_selection` leaves on rows that had `fresh`
/// selected, for the task selected before (`previous`).
pub open spec fn kept_selection(
    rows: Seq<ListRow>,
    fresh: Option<usize>,
    previous: Option<Seq<char>>,
) -> Option<usize> {
    match previous {
        Some(id) => match first_row_with_task(rows, id) {
            Some(k) => Some(k as usize),
            None => first_selection(rows, fresh),
        },
        None => fresh,
    }
}

/// `l` is the list rebuilt from `tasks` in place of `before`: the copies of
/// the tasks grouped by status, with the task selected in `before` selected
/// again where it is still there.
pub open spec fn rebuilt_from(l: GroupedTaskList, before: GroupedTaskList, tasks: Seq<Task>) -> bool {
    &&& exists|c: Seq<Task>| #[trigger] copies_of(tasks, c) && is_grouping(l.rows_view(), c)
    &&& l.wf()
    &&& l.selected == kept_selection(
        l.rows@,
        fresh_selection(tasks.len()),
        selected_task_id(before.rows@, before.selected),
    )
}

/// A row with a task of the id makes `first_row_with_task` find the first
/// such row, at or before it.
proof fn lemma_first_row_with_task_found(rows: Seq<ListRow>, id: Seq<char>, i: int)
    requires
        0 <= i < rows.len(),
        row_has_task(rows[i], id),
    ensures
        first_row_with_task(rows, id) matches Some(k) && (0 <= k <= i && row_has_task(rows[k], id)),
    decreases i,
{
    if exists|j: int| 0 <= j < i && row_has_task(#[trigger] rows[j], id) {
        let j = choose|j: int| 0 <= j < i && row_has_task(#[trigger] rows[j], id);
        lemma_first_row_with_task_found(rows, id, j);
    } else {
        assert(0 <= i < rows.len() && row_has_task(rows[i], id) && forall|j: int|
            0 <= j < i ==> !row_has_task(#[trigger] rows[j], id));
        let k = choose|k: int|
            0 <= k < rows.len() && row_has_task(rows[k], id) && forall|j: int|
                0 <= j < k ==> !row_has_task(#[trigger] rows[j], id);
        if k < i {
            assert(!row_has_task(rows[k], id));
        } else if k > i {
            assert(!row_has_task(rows[i], id));
        }
    }
}

/// In rows that group the tasks `c`, the first row with a task of an id
/// that one of `c` has holds one of `c`.
#[verifier::rlimit(60)]
proof fn lemma_grouped_row_with_id(rows: Seq<ListRow>, c: Seq<Task>, id: Seq<char>, i: int)
    requires
        rows_hold(rows.map_values(|r: ListRow| row_view(r)), c),
        0 <= i < c.len(),
        c[i].id@ == id,
    ensures
        first_row_with_task(rows, id) matches Some(k) && (0 <= k < rows.len() && (
        rows[k] matches ListRow::Task(t) && (t.id@ == id && c.contains(t)))),
{
    let rv = rows.map_values(|r: ListRow| row_view(r));
    assert(rv.contains(RowView::Task(c[i])));
    let r = choose|r: int| 0 <= r < rv.len() && rv[r] == RowView::Task(c[i]);
    assert(rv[r] == row_view(rows[r]));
    assert(row_has_task(rows[r], id));
    lemma_first_row_with_task_found(rows, id, r);
    let k = first_row_with_task(rows, id)->0;
    assert(rv[k] == row_view(rows[k]));
}

/// After a rebuild, the task that was selected is selected again when a task
/// with its id is still among the tasks: the selected row shows a copy of
/// such a task.
#[verifier::rlimit(60)]
pub proof fn lemma_rebuild_reselects(
    l: GroupedTaskList,
    before: GroupedTaskList,
    tasks: Seq<Task>,
    id: Seq<char>,
)
    requires
        rebuilt_from(l, before, tasks),
        selected_task_id(before.rows@, before.selected) == Some(id),
        exists|i: int| 0 <= i < tasks.len() && (#[trigger] tasks[i]).id@ == id,
    ensures
        l.selected matches Some(k) && (k < l.rows@.len() && (l.rows@[k as int] matches ListRow::Task(
            t,
        ) && (t.id@ == id && exists|i: int| 0 <= i < tasks.len() && same_task(t, #[trigger] tasks[i])))),
{
    let c = choose|c: Seq<Task>| #[trigger] copies_of(tasks, c) && is_grouping(l.rows_view(), c);
    let i = choose|i: int| 0 <= i < tasks.len() && (#[trigger] tasks[i]).id@ == id;
    assert(same_task(c[i], tasks[i]));
    lemma_grouping_members(l.rows_view(), c);
    lemma_grouped_row_with_id(l.rows@, c, id, i);
    let k = first_row_with_task(l.rows@, id)->0;
    assert(l.rows@.len() == l.rows.len());
    assert(0 <= k < l.rows@.len());
    assert(k as usize as int == k);
    assert(l.selected == Some(k as usize));
    if let ListRow::Task(t) = l.rows@[k] {
        let j = choose|j: int| 0 <= j < c.len() && c[j] == t;
        assert(same_task(c[j], tasks[j]));
    }
}

/// Rebuilds the grouped task list from the tasks after a change, keeping the
/// task that was selected (see `keep_selection`).
pub fn rebuild_task_list(tasks: &Vec<Task>, list: &mut GroupedTaskList)
    requires
        old(list).wf(),
    ensures
        rebuilt_from(*final(list), *old(list), tasks@),
{
    let previous: Option<String> = match list.selected_task() {
        Some(t) => Some(t.id.clone()),
        None => None,
    };
    let copies = copy_tasks(tasks);
    let mut fresh = GroupedTaskList::from_tasks(copies);
    keep_selection(&mut fresh, &previous);
    *list = fresh;
}

/// The server's answer to an assignee change. On success the task is
/// replaced among the tasks, the grouped list rebuilt from them, a copy of
/// the answer shown in the detail view and the assignee picker closed
/// (`Assignees updated`); on failure only the message changes (`Failed to
/// update assignees: {e}`).
pub fn assignees_update_applied(
    result: Result<Task, String>,
    tasks: &mut Vec<Task>,
    list: &mut GroupedTaskList,
    detail: &mut TaskDetailState,
    picker: &mut Option<AssigneePicker>,
    status: &mut String,
)
    requires
        old(list).wf(),
    ensures
        match result {
            Ok(t) => {
                &&& final(tasks)@ == with_update(old(tasks)@, t)
                &&& rebuilt_from(*final(list), *old(list), final(tasks)@)
                &&& final(detail).task matches Some(shown) && same_task(shown, t)
                &&& *final(detail) == (TaskDetailState { task: final(detail).task, ..*old(detail) })
                &&& *final(picker) is None
                &&& final(status)@ == "Assignees updated"@
            },
            Err(e) => {
                &&& final(tasks)@ == old(tasks)@
                &&& *final(list) == *old(list)
                &&& *final(detail) == *old(detail)
                &&& *final(picker) == *old(picker)
                &&& final(status)@ == "Failed to update assignees: "@ + e@
            },
        },
{
    match result {
        Ok(t) => {
            let shown = copy_task(&t);
            assignees_answered(Ok(t), tasks, status);
            rebuild_task_list(tasks, list);
            detail.task = Some(shown);
            *picker = None;
        },
        Err(e) => assignees_answered(Err(e), tasks, status),
    }
}

/// The server's answer to a status change. On success the task is replaced
/// among the tasks and a copy of it shown in the detail view (`Status
/// updated`); on failure the optimistic status is rolled back (see
/// `status_change_answered`). Either way the grouped list is rebuilt from the
/// tasks and the status picker closed.
pub fn status_update_applied(
    result: Result<Task, String>,
    change: &Option<(String, Option<String>)>,
    tasks: &mut Vec<Task>,
    list: &mut GroupedTaskList,
    detail: &mut TaskDetailState,
    picker: &mut Option<StatusPicker>,
    status: &mut String,
)
    requires
        old(list).wf(),
    ensures
        rebuilt_from(*final(list), *old(list), final(tasks)@),
        *final(picker) is None,
        match result {
            Ok(t) => {
                &&& final(tasks)@ == with_update(old(tasks)@, t)
                &&& final(detail).task matches Some(shown) && same_task(shown, t)
                &&& *final(detail) == (TaskDetailState { task: final(detail).task, ..*old(detail) })
                &&& final(status)@ == "Status updated"@
            },
            Err(e) => {
                &&& final(tasks)@ == match *change {
                    Some((id, Some(former))) => with_status(old(tasks)@, id@, former),
                    _ => old(tasks)@,
                }
                &&& *final(detail) == *old(detail)
                &&& final(status)@ == "Failed to update status: "@ + e@
            },
        },
{
    match result {
        Ok(t) => {
            let shown = copy_task(&t);
            status_change_answered(Ok(t), change, tasks, status);
            detail.task = Some(shown);
        },
        Err(e) => status_change_answered(Err(e), change, tasks, status),
    }
    rebuild_task_list(tasks, list);
    *picker = None;
}

/// The members of the open list, fetched to assign the task in the detail
/// view: on success the assignee picker opens on them (see
/// `open_assignee_picker`); on failure no picker and `Failed to load members:
/// {e}`.
pub fn members_loaded(
    result: Result<Vec<User>, String>,
    task: &Option<Task>,
    status: &mut String,
) -> (p: Option<AssigneePicker>)
    ensures
        match result {
            Ok(members) => {
                &&& p matches Some(picker) && picker.members@ == members@ && picker.cursor == 0
                    && picker.selected@ == picker.original@ && picker.selected@.no_duplicates()
                    && picker.selected@.to_set() == match *task {
                    Some(t) => distinct_ids(t.assignees@),
                    None => Set::<i64>::empty(),
                }
                &&& *final(status) == *old(status)
            },
            Err(e) => p is None && final(status)@ == "Failed to load members: "@ + e@,
        },
{
    match result {
        Ok(members) => Some(open_assignee_picker(task, members)),
        Err(e) => {
            let mut msg = owned("Failed to load members: ");
            push_str(&mut msg, e.as_str());
            *status = msg;
            None
        },
    }
}

/// Takes the status chosen in the status picker for the task it was opened
/// on (`task_id`): without a task (`No task selected`) or with the cursor past
/// the statuses (`No status selected`) nothing changes; otherwise the task
/// shows the new status at once, before the server confirms it. Returns the
/// task's id and the new status, to be sent.
pub fn choose_status(
    picker: &StatusPicker,
    task_id: &Option<String>,
    tasks: &mut Vec<Task>,
    status: &mut String,
) -> (r: Option<(String, String)>)
    ensures
        match *task_id {
            None => r is None && final(tasks)@ == old(tasks)@ && final(status)@
                == "No task selected"@,
            Some(id) => if picker.cursor < picker.statuses@.len() {
                let chosen = picker.statuses@[picker.cursor as int].status;
                &&& r == Some((id, chosen))
                &&& final(tasks)@ == with_status(old(tasks)@, id@, chosen)
                &&& *final(status) == *old(status)
            } else {
                r is None && final(tasks)@ == old(tasks)@ && final(status)@
                    == "No status selected"@
            },
        },
{
    match task_id {
        None => {
            *status = owned("No task selected");
            None
        },
        Some(id) => {
            if picker.cursor < picker.statuses.len() {
                let chosen = picker.statuses[picker.cursor].status.clone();
                set_task_status(tasks, id.as_str(), chosen.clone());
                Some((id.clone(), chosen))
            } else {
                *status = owned("No status selected");
                None
            }
        },
    }
}


/// Takes a failure to load the tasks of the open list: no task is kept, so
/// that nothing stale is shown, and a session restore ends.
pub fn tasks_failed(
    e: &str,
    tasks: &mut Vec<Task>,
    list: &mut GroupedTaskList,
    restore: &mut SessionRestore,
    status: &mut String,
    error: &mut Option<String>,
)
    ensures
        final(tasks)@.len() == 0,
        final(list).rows@.len() == 0,
        final(list).selected is None,
        *final(restore) == (SessionRestore { restoring: false, ..*old(restore) }),
        final(status)@ == "Failed to load tasks"@,
        *final(error) matches Some(m) && m@ == "Failed to load tasks: "@ + e@,
{
    let mut msg = owned("Failed to load tasks: ");
    push_str(&mut msg, e);
    *error = Some(msg);
    *status = owned("Failed to load tasks");
    *tasks = Vec::new();
    *list = GroupedTaskList::new();
    restore.restoring = false;
}

/// Takes the answer to loading the tasks of the open list. On success the
/// tasks are kept, the grouped list is built from (copies of) them and a task
/// selected as `tasks_loaded` says, and the error is cleared; on failure see
/// `tasks_failed`.
pub fn tasks_answered(
    result: Result<Vec<Task>, String>,
    tasks: &mut Vec<Task>,
    list: &mut GroupedTaskList,
    restore: &mut SessionRestore,
    status: &mut String,
    error: &mut Option<String>,
)
    ensures
        *final(restore) == (SessionRestore { restoring: false, ..*old(restore) }),
        match result {
            Ok(ts) => {
                &&& final(tasks)@ == ts@
                &&& exists|c: Seq<Task>| #[trigger]
                    copies_of(ts@, c) && is_grouping(final(list).rows_view(), c)
                &&& final(list).wf()
                &&& tasks_loaded_post(
                    final(list).rows@,
                    fresh_selection(ts@.len()),
                    old(restore).restoring,
                    old(restore).task_id,
                    final(list).selected,
                    final(status)@,
                )
                &&& *final(error) is None
            },
            Err(e) => {
                &&& final(tasks)@.len() == 0
                &&& final(list).rows@.len() == 0
                &&& final(list).selected is None
                &&& final(status)@ == "Failed to load tasks"@
                &&& *final(error) matches Some(m) && m@ == "Failed to load tasks: "@ + e@
            },
        },
{
    match result {
        Ok(ts) => {
            let copies = copy_tasks(&ts);
            let mut fresh = GroupedTaskList::from_tasks(copies);
            tasks_loaded(&mut fresh, restore, status);
            *list = fresh;
            *tasks = ts;
            *error = None;
        },
        Err(e) => tasks_failed(e.as_str(), tasks, list, restore, status, error),
    }
}

/// Takes the answer to deleting a task (`Ok` with its id): the task leaves
/// the kept tasks and the list loses its selection; on failure the task
/// stays and the error is shown.
pub fn task_deleted(
    result: Result<String, String>,
    tasks: &mut Vec<Task>,
    list: &mut GroupedTaskList,
    status: &mut String,
    error: &mut Option<String>,
)
    ensures
        match result {
            Ok(id) => {
                &&& final(tasks)@ == old(tasks)@.filter(|t: Task| t.id@ != id@)
                &&& final(list).rows@ == old(list).rows@
                &&& final(list).selected is None
                &&& final(status)@ == "Task deleted"@
                &&& *final(error) == *old(error)
            },
            Err(e) => {
                &&& final(tasks)@ == old(tasks)@
                &&& *final(list) == *old(list)
                &&& final(status)@ == "Failed to delete task"@
                &&& *final(error) matches Some(m) && m@ == "Failed to delete task: "@ + e@
            },
        },
{
    match result {
        Ok(id) => {
            let mut kept: Vec<Task> = Vec::new();
            std::mem::swap(&mut kept, tasks);
            *tasks = remove_task(kept, id.as_str());
            list.select(None);
            *status = owned("Task deleted");
        },
        Err(e) => {
            let mut msg = owned("Failed to delete task: ");
            push_str(&mut msg, e.as_str());
            *error = Some(msg);
            *status = owned("Failed to delete task");
        },
    }
}


/// The tasks after the server confirmed a change of `updated`: it replaces
/// the first task with its id (nothing changes without one).
pub open spec fn with_update(tasks: Seq<Task>, updated: Task) -> Seq<Task> {
    match first_task_with_id(tasks, updated.id@) {
        Some(k) => tasks.update(k, updated),
        None => tasks,
    }
}

/// Takes the server's answer to a status change; `change` holds the task's
/// id and its status before the change. The confirmed task replaces the
/// first with its id (`Status updated`); on failure the task shows its former
/// status again (`Failed to update status: {e}`).
pub fn status_change_answered(
    result: Result<Task, String>,
    change: &Option<(String, Option<String>)>,
    tasks: &mut Vec<Task>,
    status: &mut String,
)
    ensures
        match result {
            Ok(t) => final(tasks)@ == with_update(old(tasks)@, t) && final(status)@
                == "Status updated"@,
            Err(e) => {
                &&& final(tasks)@ == match *change {
                    Some((id, Some(former))) => with_status(old(tasks)@, id@, former),
                    _ => old(tasks)@,
                }
                &&& final(status)@ == "Failed to update status: "@ + e@
            },
        },
{
    match result {
        Ok(t) => {
            replace_task_by_id(tasks, t);
            *status = owned("Status updated");
        },
        Err(e) => {
            match change {
                Some((id, Some(former))) => {
                    set_task_status(tasks, id.as_str(), former.clone());
                },
                _ => {},
            }
            let mut msg = owned("Failed to update status: ");
            push_str(&mut msg, e.as_str());
            *status = msg;
        },
    }
}

/// Takes the server's answer to a change of assignees: the confirmed task
/// replaces the first with its id (`Assignees updated`); on failure nothing
/// changes but the status (`Failed to update assignees: {e}`).
pub fn assignees_answered(result: Result<Task, String>, tasks: &mut Vec<Task>, status: &mut String)
    ensures
        match result {
            Ok(t) => final(tasks)@ == with_update(old(tasks)@, t) && final(status)@
                == "Assignees updated"@,
            Err(e) => final(tasks)@ == old(tasks)@ && final(status)@ == "Failed to update assignees: "@
                + e@,
        },
{
    match result {
        Ok(t) => {
            replace_task_by_id(tasks, t);
            *status = owned("Assignees updated");
        },
        Err(e) => {
            let mut msg = owned("Failed to update assignees: ");
            push_str(&mut msg, e.as_str());
            *status = msg;
        },
    }
}

/// After the server confirms a change of the selected task (assignees or
/// status), the list rebuilt from the updated tasks selects a copy of the
/// confirmed task: with its new assignees and status. (No other task may share
/// its id, as the server's ids are unique.)
#[verifier::rlimit(60)]
pub proof fn lemma_update_shown_in_list(
    old_tasks: Seq<Task>,
    before: GroupedTaskList,
    after: GroupedTaskList,
    t: Task,
)
    requires
        rebuilt_from(after, before, with_update(old_tasks, t)),
        selected_task_id(before.rows@, before.selected) == Some(t.id@),
        first_task_with_id(old_tasks, t.id@) is Some,
        forall|i: int, j: int|
            0 <= i < j < old_tasks.len() ==> (#[trigger] old_tasks[i]).id@ != (#[trigger] old_tasks[j]).id@,
    ensures
        after.selected matches Some(k) && (k < after.rows@.len() && (after.rows@[k as int] matches ListRow::Task(
            s,
        ) && same_task(s, t))),
{
    let w = choose|i: int| 0 <= i < old_tasks.len() && (#[trigger] old_tasks[i]).id@ == t.id@;
    lemma_first_task_found(old_tasks, t.id@, w);
    let k = first_task_with_id(old_tasks, t.id@)->0;
    let new_tasks = with_update(old_tasks, t);
    assert(new_tasks == old_tasks.update(k, t));
    assert(new_tasks[k] == t);
    lemma_rebuild_reselects(after, before, new_tasks, t.id@);
    let r = after.selected->0;
    if let ListRow::Task(s) = after.rows@[r as int] {
        let i = choose|i: int| 0 <= i < new_tasks.len() && same_task(s, #[trigger] new_tasks[i]);
        if i != k {
            assert(new_tasks[i] == old_tasks[i]);
            if i < k {
                assert(old_tasks[i].id@ != old_tasks[k].id@);
            } else {
                assert(old_tasks[k].id@ != old_tasks[i].id@);
            }
        }
    }
}

} // verus!
