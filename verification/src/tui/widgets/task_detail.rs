//! The task detail panel.
use vstd::prelude::*;

use crate::models::task::Task;
use crate::text::{
    char_width, lemma_char_width_bounds, lemma_split_lf_bytes, lemma_split_lf_nonempty, lines_of,
    pieces_bytes, split_lf, str_byte_len, str_lines, strip_cr, utf8_len,
};
use crate::tui::layout::ScrollState;

verus! {

/// The task shown, whether it is being edited or created, and the scroll
/// position of its description.
#[derive(Debug, Clone)]
pub struct TaskDetailState {
    pub task: Option<Task>,
    pub editing: bool,
    pub creating: bool,
    pub description_scroll: ScrollState,
}

impl TaskDetailState {
    /// No task, not editing, the description at the top.
    pub fn new() -> (s: Self)
        ensures
            s.task is None,
            !s.editing,
            !s.creating,
            s.description_scroll.offset == 0,
            s.description_scroll.max_offset == 0,
            !s.description_scroll.scrollable,
    {
        TaskDetailState {
            task: None,
            editing: false,
            creating: false,
            description_scroll: ScrollState::new(),
        }
    }
}

impl Default for TaskDetailState {
    fn default() -> (s: Self)
        ensures
            s.task is None,
            !s.editing,
            !s.creating,
            s.description_scroll.offset == 0,
            s.description_scroll.max_offset == 0,
            !s.description_scroll.scrollable,
    {
        TaskDetailState::new()
    }
}

/// Status-bar hints of the task detail panel.
pub fn get_task_detail_hints() -> (s: &'static str)
    ensures
        s@ == "e: Edit | d: Delete | Ctrl+S: Save | Esc: Close"@,
{
    "e: Edit | d: Delete | Ctrl+S: Save | Esc: Close"
}


/// The rows a line takes when wrapped at `w` bytes a row: its bytes divided
/// by `w`, rounded up; an empty line takes one row.
pub open spec fn line_rows(l: Seq<char>, w: int) -> int {
    if l.len() == 0 {
        1
    } else {
        (utf8_len(l) + w - 1) / w
    }
}

/// The rows that some lines take (see `line_rows`).
pub open spec fn rows_of(ls: Seq<Seq<char>>, w: int) -> int
    decreases ls.len(),
{
    if ls.len() == 0 {
        0
    } else {
        rows_of(ls.drop_last(), w) + line_rows(ls.last(), w)
    }
}

/// How many rows a text takes at `w` bytes a row, to size its scrolling: its
/// bytes when there is no width, else the rows of its lines (`str::lines`),
/// at least one.
pub open spec fn wrapped_rows(text: Seq<char>, w: int) -> int {
    if w == 0 {
        utf8_len(text) as int
    } else {
        let r = rows_of(lines_of(text), w);
        if r < 1 {
            1
        } else {
            r
        }
    }
}

proof fn lemma_utf8_len_empty_iff(l: Seq<char>)
    ensures
        (utf8_len(l) == 0) == (l.len() == 0),
        l.len() > 0 ==> utf8_len(l.drop_last()) <= utf8_len(l),
{
    if l.len() > 0 {
        lemma_char_width_bounds(l.last());
    }
}

/// A non-empty line takes at least one row and at most one per byte.
proof fn lemma_line_rows_bounds(l: Seq<char>, w: int)
    requires
        w >= 1,
    ensures
        1 <= line_rows(l, w),
        l.len() > 0 ==> line_rows(l, w) <= utf8_len(l),
        line_rows(strip_cr(l), w) <= utf8_len(l) + 1,
{
    lemma_utf8_len_empty_iff(l);
    let b = utf8_len(l) as int;
    if l.len() > 0 {
        vstd::arithmetic::div_mod::lemma_div_plus_one(b - 1, w);
        vstd::arithmetic::div_mod::lemma_div_nonincreasing(b - 1, w);
        vstd::arithmetic::div_mod::lemma_div_pos_is_pos(b - 1, w);
        assert(w + (b - 1) == b + w - 1);
    }
    let m = strip_cr(l);
    if m.len() > 0 {
        lemma_utf8_len_empty_iff(m);
        let c = utf8_len(m) as int;
        vstd::arithmetic::div_mod::lemma_div_plus_one(c - 1, w);
        vstd::arithmetic::div_mod::lemma_div_nonincreasing(c - 1, w);
        assert(w + (c - 1) == c + w - 1);
        if l.len() > 0 && l.last() == '\r' {
            lemma_utf8_len_empty_iff(l);
        }
    }
}

/// Rows never go below zero, and a prefix of lines takes no more rows than
/// all of them.
proof fn lemma_rows_prefix(ls: Seq<Seq<char>>, w: int, i: int)
    requires
        w >= 1,
        0 <= i <= ls.len(),
    ensures
        0 <= rows_of(ls.take(i), w) <= rows_of(ls, w),
    decreases ls.len() - i,
{
    if i < ls.len() {
        lemma_rows_prefix(ls, w, i + 1);
        let t = ls.take(i + 1);
        assert(t.drop_last() =~= ls.take(i));
        assert(t.last() == ls[i]);
        assert(rows_of(t, w) == rows_of(t.drop_last(), w) + line_rows(t.last(), w));
        lemma_line_rows_bounds(ls[i], w);
        lemma_rows_nonneg(ls.take(i), w);
    } else {
        assert(ls.take(i) =~= ls);
        lemma_rows_nonneg(ls, w);
    }
}

proof fn lemma_rows_nonneg(ls: Seq<Seq<char>>, w: int)
    requires
        w >= 1,
    ensures
        rows_of(ls, w) >= 0,
    decreases ls.len(),
{
    if ls.len() > 0 {
        lemma_rows_nonneg(ls.drop_last(), w);
        lemma_line_rows_bounds(ls.last(), w);
    }
}

/// Lines ended by a line feed take at most one row per byte and one per line.
proof fn lemma_terminated_rows(qs: Seq<Seq<char>>, w: int)
    requires
        w >= 1,
    ensures
        rows_of(qs.map_values(|l: Seq<char>| strip_cr(l)), w) <= pieces_bytes(qs) + qs.len(),
    decreases qs.len(),
{
    if qs.len() > 0 {
        let f = |l: Seq<char>| strip_cr(l);
        lemma_terminated_rows(qs.drop_last(), w);
        assert(qs.map_values(f).drop_last() =~= qs.drop_last().map_values(f));
        lemma_line_rows_bounds(qs.last(), w);
    }
}

/// A text takes at most one row per byte.
proof fn lemma_rows_bounded(s: Seq<char>, w: int)
    requires
        w >= 1,
    ensures
        rows_of(lines_of(s), w) <= utf8_len(s),
{
    let p = split_lf(s);
    lemma_split_lf_nonempty(s);
    lemma_split_lf_bytes(s);
    let f = |l: Seq<char>| strip_cr(l);
    let a = p.drop_last().map_values(f);
    lemma_terminated_rows(p.drop_last(), w);
    assert(pieces_bytes(p) == pieces_bytes(p.drop_last()) + utf8_len(p.last()));
    if p.last().len() > 0 {
        let ls = a + seq![p.last()];
        assert(ls.drop_last() =~= a);
        assert(lines_of(s) == ls);
        lemma_line_rows_bounds(p.last(), w);
    } else {
        assert(lines_of(s) =~= a);
    }
}

/// How many rows a text takes at `available_width` bytes a row (see
/// `wrapped_rows`).
pub fn estimate_wrapped_lines(text: &str, available_width: usize) -> (n: usize)
    ensures
        n == wrapped_rows(text@, available_width as int),
{
    if available_width == 0 {
        return str_byte_len(text);
    }
    let w = available_width;
    let total = str_byte_len(text);
    let lines = str_lines(text);
    let ghost ls = lines_of(text@);
    proof {
        lemma_rows_bounded(text@, w as int);
    }
    let mut count: usize = 0;
    let mut i: usize = 0;
    while i < lines.len()
        invariant
            w >= 1,
            i <= lines@.len(),
            lines@.map_values(|l: String| l@) == ls,
            count == rows_of(ls.take(i as int), w as int),
            rows_of(ls, w as int) <= total,
        decreases lines@.len() - i,
    {
        let b = str_byte_len(lines[i].as_str());
        proof {
            assert(lines@.map_values(|l: String| l@)[i as int] == lines@[i as int]@);
            lemma_utf8_len_empty_iff(ls[i as int]);
            assert(ls.take(i + 1).drop_last() =~= ls.take(i as int));
            lemma_rows_prefix(ls, w as int, i + 1);
        }
        let r = if b == 0 {
            1
        } else {
            proof {
                vstd::arithmetic::div_mod::lemma_div_plus_one(b - 1, w as int);
                assert(w + (b - 1) == b + w - 1);
            }
            (b - 1) / w + 1
        };
        count = count + r;
        i = i + 1;
    }
    proof {
        assert(ls.take(lines@.len() as int) =~= ls);
    }
    if count < 1 {
        1
    } else {
        count
    }
}

} // verus!
