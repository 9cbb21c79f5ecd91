//! The unified "Assigned to Me" view: assigned tasks and assigned comments.
use vstd::prelude::*;

use crate::models::comment::Comment;
use crate::models::task::{Task, TaskReference};
use crate::sorting::{is_stable_order, rank_before, reversed, stable_sort_by_rank, stably_ordered};
use crate::text::{ellipsize, ellipsized, is_byte_boundary, owned, push_str, utf8_len};

verus! {

/// A comment assigned to the user, with its parent task.
#[derive(Debug, Clone, PartialEq)]
pub struct AssignedComment {
    pub comment: Comment,
    pub task: TaskReference,
    /// When the comment was assigned (Unix milliseconds), if known.
    pub assigned_at: Option<i64>,
}

/// The preview of `text` cut to `max_len` bytes: unchanged when it fits,
/// otherwise its first `max_len - 3` bytes and `...`.
pub open spec fn preview_text(text: Seq<char>, max_len: nat) -> Seq<char> {
    ellipsized(text, max_len, (max_len - 3) as nat)
}

/// `preview(max_len)` can cut `text` (the cut falls on a character boundary).
pub open spec fn preview_cuttable(text: Seq<char>, max_len: nat) -> bool {
    utf8_len(text) > max_len ==> max_len >= 3 && is_byte_boundary(text, max_len - 3)
}

/// The time an assigned comment is sorted by: its update time, else its
/// creation time, else 0.
pub open spec fn comment_time(c: Comment) -> i64 {
    match c.updated_at {
        Some(u) => u,
        None => match c.created_at {
            Some(t) => t,
            None => 0,
        },
    }
}

impl AssignedComment {
    /// The time this item is sorted by.
    pub fn updated_at(&self) -> (t: i64)
        ensures
            t == comment_time(self.comment),
    {
        match self.comment.updated_at {
            Some(u) => u,
            None => match self.comment.created_at {
                Some(t) => t,
                None => 0,
            },
        }
    }

    /// The comment text, cut to `max_len` bytes with a trailing `...` when it
    /// is longer.
    pub fn preview(&self, max_len: usize) -> (s: String)
        requires
            preview_cuttable(self.comment.text@, max_len as nat),
        ensures
            s@ == preview_text(self.comment.text@, max_len as nat),
    {
        let keep = if max_len >= 3 {
            max_len - 3
        } else {
            0
        };
        ellipsize(self.comment.text.as_str(), max_len, keep)
    }
}

/// An assigned work item: a task or a comment.
#[derive(Debug, Clone, PartialEq)]
pub enum AssignedItem {
    Task(Task),
    AssignedComment(AssignedComment),
}

/// The time an assigned item is sorted by.
pub open spec fn item_time(item: AssignedItem) -> i64 {
    match item {
        AssignedItem::Task(t) => match t.updated_at {
            Some(u) => u,
            None => 0,
        },
        AssignedItem::AssignedComment(ac) => comment_time(ac.comment),
    }
}

impl AssignedItem {
    /// The item's id: the task id, or `comment_` and the comment id.
    pub fn id(&self) -> (s: String)
        ensures
            s@ == match *self {
                AssignedItem::Task(t) => t.id@,
                AssignedItem::AssignedComment(ac) => "comment_"@ + ac.comment.id@,
            },
    {
        match self {
            AssignedItem::Task(task) => task.id.clone(),
            AssignedItem::AssignedComment(ac) => {
                let mut s = owned("comment_");
                push_str(&mut s, ac.comment.id.as_str());
                s
            },
        }
    }

    /// The display name: the task name, or the comment preview cut to 50
    /// bytes.
    pub fn name(&self) -> (s: String)
        requires
            self is AssignedComment ==> preview_cuttable(
                self->AssignedComment_0.comment.text@,
                50,
            ),
        ensures
            s@ == match *self {
                AssignedItem::Task(t) => t.name@,
                AssignedItem::AssignedComment(ac) => preview_text(ac.comment.text@, 50),
            },
    {
        match self {
            AssignedItem::Task(task) => task.name.clone(),
            AssignedItem::AssignedComment(ac) => ac.preview(50),
        }
    }

    /// The time this item is sorted by.
    pub fn updated_at(&self) -> (t: i64)
        ensures
            t == item_time(*self),
    {
        match self {
            AssignedItem::Task(task) => match task.updated_at {
                Some(u) => u,
                None => 0,
            },
            AssignedItem::AssignedComment(ac) => ac.updated_at(),
        }
    }

    /// The task to navigate to for this item.
    pub fn parent_task(&self) -> (r: Option<TaskReference>)
        ensures
            r is Some,
            r matches Some(p) ==> match *self {
                AssignedItem::Task(t) => p.id@ == t.id@ && (p.name matches Some(n) && n@
                    == t.name@),
                AssignedItem::AssignedComment(ac) => p.id@ == ac.task.id@ && match ac.task.name {
                    Some(n) => (p.name matches Some(m) && m@ == n@),
                    None => p.name is None,
                },
            },
    {
        match self {
            AssignedItem::Task(task) => Some(
                TaskReference { id: task.id.clone(), name: Some(task.name.clone()) },
            ),
            AssignedItem::AssignedComment(ac) => {
                let name = match &ac.task.name {
                    Some(n) => Some(n.clone()),
                    None => None,
                };
                Some(TaskReference { id: ac.task.id.clone(), name })
            },
        }
    }

    /// Whether this item is a task.
    pub fn is_task(&self) -> (b: bool)
        ensures
            b == (*self is Task),
    {
        match self {
            AssignedItem::Task(_) => true,
            _ => false,
        }
    }

    /// Whether this item is a comment.
    pub fn is_comment(&self) -> (b: bool)
        ensures
            b == (*self is AssignedComment),
    {
        match self {
            AssignedItem::AssignedComment(_) => true,
            _ => false,
        }
    }
}

/// Which assigned items are shown.
#[derive(Debug, Clone, Copy, PartialEq, Eq, Structural)]
pub enum AssignedItemsFilter {
    /// Tasks and comments.
    All,
    /// Tasks only.
    TasksOnly,
    /// Comments only.
    CommentsOnly,
}

/// Whether `filter` shows `item`.
pub open spec fn filter_shows(filter: AssignedItemsFilter, item: AssignedItem) -> bool {
    match filter {
        AssignedItemsFilter::All => true,
        AssignedItemsFilter::TasksOnly => item is Task,
        AssignedItemsFilter::CommentsOnly => item is AssignedComment,
    }
}

impl Default for AssignedItemsFilter {
    fn default() -> (f: Self)
        ensures
            f == AssignedItemsFilter::All,
    {
        AssignedItemsFilter::All
    }
}

impl AssignedItemsFilter {
    /// The items this filter shows, in their order.
    pub fn apply(&self, items: Vec<AssignedItem>) -> (r: Vec<AssignedItem>)
        ensures
            r@ == items@.filter(|i: AssignedItem| filter_shows(*self, i)),
    {
        let ghost orig = items@;
        let ghost pred = |i: AssignedItem| filter_shows(*self, i);
        let mut rev = reversed(items);
        let mut out: Vec<AssignedItem> = Vec::new();
        let n = rev.len();
        proof {
            reveal(Seq::filter);
            assert(orig.take(0).filter(pred) =~= Seq::<AssignedItem>::empty());
        }
        while rev.len() > 0
            invariant
                n == orig.len(),
                rev@.len() <= n,
                forall|j: int| 0 <= j < rev@.len() ==> #[trigger] rev@[j] == orig[n - 1 - j],
                out@ == orig.take(n - rev@.len()).filter(pred),
                pred == (|i: AssignedItem| filter_shows(*self, i)),
            decreases rev.len(),
        {
            let x = rev.pop().unwrap();
            let ghost i = n - rev@.len() - 1;
            assert(x == orig[i]);
            let keep = match self {
                AssignedItemsFilter::All => true,
                AssignedItemsFilter::TasksOnly => x.is_task(),
                AssignedItemsFilter::CommentsOnly => x.is_comment(),
            };
            proof {
                reveal(Seq::filter);
                assert(orig.take(i + 1).drop_last() =~= orig.take(i));
                assert(keep == pred(x));
            }
            if keep {
                out.push(x);
            }
        }
        assert(orig.take(n as int) =~= orig);
        out
    }

    /// The label shown for this filter.
    pub fn label(&self) -> (s: &'static str)
        ensures
            s@ == match *self {
                AssignedItemsFilter::All => "All"@,
                AssignedItemsFilter::TasksOnly => "Tasks"@,
                AssignedItemsFilter::CommentsOnly => "Comments"@,
            },
    {
        match self {
            AssignedItemsFilter::All => "All",
            AssignedItemsFilter::TasksOnly => "Tasks",
            AssignedItemsFilter::CommentsOnly => "Comments",
        }
    }

    /// The next filter in the cycle All, Tasks, Comments.
    pub fn next(&self) -> (f: Self)
        ensures
            f == next_filter(*self),
    {
        match self {
            AssignedItemsFilter::All => AssignedItemsFilter::TasksOnly,
            AssignedItemsFilter::TasksOnly => AssignedItemsFilter::CommentsOnly,
            AssignedItemsFilter::CommentsOnly => AssignedItemsFilter::All,
        }
    }
}

/// The filter after `f` in the cycle All, Tasks, Comments.
pub open spec fn next_filter(f: AssignedItemsFilter) -> AssignedItemsFilter {
    match f {
        AssignedItemsFilter::All => AssignedItemsFilter::TasksOnly,
        AssignedItemsFilter::TasksOnly => AssignedItemsFilter::CommentsOnly,
        AssignedItemsFilter::CommentsOnly => AssignedItemsFilter::All,
    }
}

/// Cycling the filter three times comes back to where it started, and no
/// fewer steps do.
pub proof fn lemma_filter_cycle(f: AssignedItemsFilter)
    ensures
        next_filter(next_filter(next_filter(f))) == f,
        next_filter(f) != f,
        next_filter(next_filter(f)) != f,
{
}

/// The time an assigned item is sorted by, in terms of its fields: a task's
/// update time (0 without one); a comment's update time when it has one, its
/// creation time when it has only that, and 0 when it has neither.
pub proof fn lemma_item_time_fields(item: AssignedItem)
    ensures
        item matches AssignedItem::Task(t) ==> (t.updated_at matches Some(u) ==> item_time(item) == u),
        item matches AssignedItem::Task(t) ==> (t.updated_at is None ==> item_time(item) == 0),
        item matches AssignedItem::AssignedComment(ac) ==> (ac.comment.updated_at matches Some(u)
            ==> item_time(item) == u),
        item matches AssignedItem::AssignedComment(ac) ==> (ac.comment.updated_at is None
            ==> (ac.comment.created_at matches Some(c) ==> item_time(item) == c)),
        item matches AssignedItem::AssignedComment(ac) ==> (ac.comment.updated_at is None
            && ac.comment.created_at is None ==> item_time(item) == 0),
{
}

/// Sorted assigned items come most recently updated first.
pub proof fn lemma_assigned_newest_first(sorted: Seq<AssignedItem>, items: Seq<AssignedItem>)
    requires
        stably_ordered(sorted, items, items.map_values(|i: AssignedItem| (0i64, item_time(i)))),
    ensures
        forall|p: int, q: int|
            0 <= p < q < sorted.len() ==> item_time(#[trigger] sorted[p]) >= item_time(
                #[trigger] sorted[q],
            ),
{
    let ranks = items.map_values(|i: AssignedItem| (0i64, item_time(i)));
    let perm = choose|perm: Seq<int>| is_stable_order(sorted, items, ranks, perm);
    assert forall|p: int, q: int| 0 <= p < q < sorted.len() implies item_time(
        #[trigger] sorted[p],
    ) >= item_time(#[trigger] sorted[q]) by {
        assert(sorted[p] == items[perm[p]] && sorted[q] == items[perm[q]]);
        assert(ranks[perm[p]] == (0i64, item_time(items[perm[p]])));
        assert(ranks[perm[q]] == (0i64, item_time(items[perm[q]])));
        assert(!rank_before(ranks[perm[q]], ranks[perm[p]]));
    }
}

/// Orders assigned items most recently updated first; ties keep their order.
pub fn sort_assigned_items(items: Vec<AssignedItem>) -> (sorted: Vec<AssignedItem>)
    ensures
        stably_ordered(
            sorted@,
            items@,
            items@.map_values(|i: AssignedItem| (0i64, item_time(i))),
        ),
{
    let mut ranks: Vec<(i64, i64)> = Vec::new();
    let mut i: usize = 0;
    while i < items.len()
        invariant
            i <= items.len(),
            ranks@ == items@.take(i as int).map_values(|i: AssignedItem| (0i64, item_time(i))),
        decreases items.len() - i,
    {
        let t = items[i].updated_at();
        ranks.push((0, t));
        proof {
            assert(items@.take(i + 1) =~= items@.take(i as int).push(items@[i as int]));
            assert(ranks@ =~= items@.take(i + 1).map_values(
                |i: AssignedItem| (0i64, item_time(i)),
            ));
        }
        i = i + 1;
    }
    assert(items@.take(items.len() as int) =~= items@);
    stable_sort_by_rank(items, ranks)
}

} // verus!
