//! Text layout of the comment panel: word wrapping and comment dates.
use vstd::prelude::*;

use crate::models::inbox_activity::{
    chrono_representable, date_text_or_unknown, local_date_text, millis_to_secs,
};
use crate::text::{
    char_is_whitespace, char_width, chars_of, is_white_space, lemma_utf8_len_push, owned,
    push_char, push_str, str_byte_len, utf8_len,
};

verus! {

/// Splits `s` from index `i` on: `cur` is the word being read and `acc` the
/// words read so far. Words are the maximal runs of non-whitespace
/// characters.
pub open spec fn split_from(s: Seq<char>, i: int, cur: Seq<char>, acc: Seq<Seq<char>>) -> Seq<
    Seq<char>,
>
    decreases s.len() - i,
{
    if i < 0 || i >= s.len() {
        if cur.len() > 0 {
            acc.push(cur)
        } else {
            acc
        }
    } else if is_white_space(s[i]) {
        split_from(
            s,
            i + 1,
            Seq::empty(),
            if cur.len() > 0 {
                acc.push(cur)
            } else {
                acc
            },
        )
    } else {
        split_from(s, i + 1, cur.push(s[i]), acc)
    }
}

/// The words of `s`, in order (what `str::split_whitespace` yields).
pub open spec fn words_of(s: Seq<char>) -> Seq<Seq<char>> {
    split_from(s, 0, Seq::empty(), Seq::empty())
}

/// Greedy wrapping from word `i` on: `lines` are the finished lines and
/// `cur` the line being filled. A word joins the current line, after a
/// space, when the line's byte length stays within `width`; otherwise it
/// starts a new line. The result has at least one (possibly empty) line.
pub open spec fn wrap_from(
    words: Seq<Seq<char>>,
    width: int,
    i: int,
    lines: Seq<Seq<char>>,
    cur: Seq<char>,
) -> Seq<Seq<char>>
    decreases words.len() - i,
{
    if i < 0 || i >= words.len() {
        let done = if cur.len() > 0 {
            lines.push(cur)
        } else {
            lines
        };
        if done.len() == 0 {
            seq![Seq::empty()]
        } else {
            done
        }
    } else {
        let w = words[i];
        if cur.len() == 0 {
            wrap_from(words, width, i + 1, lines, w)
        } else if utf8_len(cur) + utf8_len(w) + 1 <= width {
            wrap_from(words, width, i + 1, lines, cur + seq![' '] + w)
        } else {
            wrap_from(words, width, i + 1, lines.push(cur), w)
        }
    }
}

/// The lines of `text` wrapped at word boundaries to `width` bytes.
pub open spec fn wrapped(text: Seq<char>, width: int) -> Seq<Seq<char>> {
    wrap_from(words_of(text), width, 0, Seq::empty(), Seq::empty())
}

/// Splitting yields no empty word.
proof fn lemma_split_from_nonempty(s: Seq<char>, i: int, cur: Seq<char>, acc: Seq<Seq<char>>)
    requires
        forall|j: int| 0 <= j < acc.len() ==> (#[trigger] acc[j]).len() > 0,
    ensures
        forall|j: int|
            0 <= j < split_from(s, i, cur, acc).len() ==> (#[trigger] split_from(
                s,
                i,
                cur,
                acc,
            )[j]).len() > 0,
    decreases s.len() - i,
{
    if i < 0 || i >= s.len() {
        if cur.len() > 0 {
            let r = acc.push(cur);
            assert(split_from(s, i, cur, acc) == r);
            assert forall|j: int| 0 <= j < r.len() implies (#[trigger] r[j]).len() > 0 by {
                if j < acc.len() {
                    assert(r[j] == acc[j]);
                }
            }
        } else {
            assert(split_from(s, i, cur, acc) == acc);
        }
    } else if is_white_space(s[i]) {
        let next = if cur.len() > 0 {
            acc.push(cur)
        } else {
            acc
        };
        assert forall|j: int| 0 <= j < next.len() implies (#[trigger] next[j]).len() > 0 by {
            if j < acc.len() {
                assert(next[j] == acc[j]);
            }
        }
        lemma_split_from_nonempty(s, i + 1, Seq::empty(), next);
        assert(split_from(s, i, cur, acc) == split_from(s, i + 1, Seq::empty(), next));
    } else {
        lemma_split_from_nonempty(s, i + 1, cur.push(s[i]), acc);
        assert(split_from(s, i, cur, acc) == split_from(s, i + 1, cur.push(s[i]), acc));
    }
}

/// Wrapping from word `i` on, with the finished lines and the current line in
/// the shape greedy wrapping leaves them, gives no empty line (unless there is
/// nothing at all to place, when the one line is empty), and no two
/// consecutive lines that would fit on one.
proof fn lemma_wrap_from_greedy(
    words: Seq<Seq<char>>,
    width: int,
    i: int,
    lines: Seq<Seq<char>>,
    cur: Seq<char>,
)
    requires
        0 <= i <= words.len(),
        forall|j: int| 0 <= j < words.len() ==> (#[trigger] words[j]).len() > 0,
        forall|j: int| 0 <= j < lines.len() ==> (#[trigger] lines[j]).len() > 0,
        cur.len() == 0 ==> lines.len() == 0,
        i > 0 ==> cur.len() > 0,
        forall|j: int|
            0 <= j < lines.len() - 1 ==> utf8_len(#[trigger] lines[j]) + 1 + utf8_len(lines[j + 1])
                > width,
        lines.len() > 0 ==> utf8_len(lines.last()) + 1 + utf8_len(cur) > width,
    ensures
        ({
            let r = wrap_from(words, width, i, lines, cur);
            &&& (i < words.len() || cur.len() > 0) ==> forall|j: int|
                0 <= j < r.len() ==> (#[trigger] r[j]).len() > 0
            &&& !(i < words.len() || cur.len() > 0) ==> r == seq![Seq::<char>::empty()]
            &&& forall|j: int|
                0 <= j < r.len() - 1 ==> utf8_len(#[trigger] r[j]) + 1 + utf8_len(r[j + 1]) > width
        }),
    decreases words.len() - i,
{
    if i < words.len() {
        let w = words[i];
        assert(w.len() > 0);
        if cur.len() == 0 {
            lemma_wrap_from_greedy(words, width, i + 1, lines, w);
            assert(wrap_from(words, width, i, lines, cur) == wrap_from(words, width, i + 1, lines, w));
        } else if utf8_len(cur) + utf8_len(w) + 1 <= width {
            let c2 = cur + seq![' '] + w;
            lemma_utf8_len_join(cur, w);
            assert(c2.len() > 0);
            lemma_wrap_from_greedy(words, width, i + 1, lines, c2);
            assert(wrap_from(words, width, i, lines, cur) == wrap_from(words, width, i + 1, lines, c2));
        } else {
            let l2 = lines.push(cur);
            assert forall|j: int| 0 <= j < l2.len() implies (#[trigger] l2[j]).len() > 0 by {
                if j < lines.len() {
                    assert(l2[j] == lines[j]);
                }
            }
            assert forall|j: int| 0 <= j < l2.len() - 1 implies utf8_len(#[trigger] l2[j]) + 1
                + utf8_len(l2[j + 1]) > width by {
                assert(l2[j] == lines[j]);
                if j + 1 < lines.len() {
                    assert(l2[j + 1] == lines[j + 1]);
                } else {
                    assert(l2[j + 1] == cur);
                }
            }
            assert(l2.last() == cur);
            lemma_wrap_from_greedy(words, width, i + 1, l2, w);
            assert(wrap_from(words, width, i, lines, cur) == wrap_from(words, width, i + 1, l2, w));
        }
    } else {
        let r = wrap_from(words, width, i, lines, cur);
        if cur.len() > 0 {
            let l2 = lines.push(cur);
            assert(r == l2);
            assert forall|j: int| 0 <= j < l2.len() implies (#[trigger] l2[j]).len() > 0 by {
                if j < lines.len() {
                    assert(l2[j] == lines[j]);
                }
            }
            assert forall|j: int| 0 <= j < l2.len() - 1 implies utf8_len(#[trigger] l2[j]) + 1
                + utf8_len(l2[j + 1]) > width by {
                assert(l2[j] == lines[j]);
                if j + 1 < lines.len() {
                    assert(l2[j + 1] == lines[j + 1]);
                } else {
                    assert(l2[j + 1] == cur);
                }
            }
        } else {
            assert(r == seq![Seq::<char>::empty()]);
        }
    }
}

/// Greedy wrapping: no wrapped line is empty, except the one line of a text
/// without words; and no two consecutive lines would fit, with a space
/// between them, within the width: a line ends only where the next word does
/// not fit on it.
pub proof fn lemma_wrapped_is_greedy(text: Seq<char>, width: int)
    ensures
        words_of(text).len() > 0 ==> forall|j: int|
            0 <= j < wrapped(text, width).len() ==> (#[trigger] wrapped(text, width)[j]).len() > 0,
        words_of(text).len() == 0 ==> wrapped(text, width) == seq![Seq::<char>::empty()],
        forall|j: int|
            0 <= j < wrapped(text, width).len() - 1 ==> utf8_len(#[trigger] wrapped(text, width)[j])
                + 1 + utf8_len(wrapped(text, width)[j + 1]) > width,
{
    lemma_split_from_nonempty(text, 0, Seq::empty(), Seq::empty());
    lemma_wrap_from_greedy(words_of(text), width, 0, Seq::empty(), Seq::empty());
}

/// Wrapping keeps every line within the width while the finished lines,
/// the current line and the words still to place fit in it.
proof fn lemma_wrap_from_fits(
    words: Seq<Seq<char>>,
    width: int,
    i: int,
    lines: Seq<Seq<char>>,
    cur: Seq<char>,
)
    requires
        0 <= i <= words.len(),
        width >= 0,
        forall|j: int| i <= j < words.len() ==> utf8_len(#[trigger] words[j]) <= width,
        forall|j: int| 0 <= j < lines.len() ==> utf8_len(#[trigger] lines[j]) <= width,
        utf8_len(cur) <= width,
    ensures
        forall|j: int|
            0 <= j < wrap_from(words, width, i, lines, cur).len() ==> utf8_len(
                #[trigger] wrap_from(words, width, i, lines, cur)[j],
            ) <= width,
    decreases words.len() - i,
{
    if i < words.len() {
        let w = words[i];
        if cur.len() == 0 {
            lemma_wrap_from_fits(words, width, i + 1, lines, w);
            assert(wrap_from(words, width, i, lines, cur) == wrap_from(words, width, i + 1, lines, w));
        } else if utf8_len(cur) + utf8_len(w) + 1 <= width {
            lemma_utf8_len_join(cur, w);
            lemma_wrap_from_fits(words, width, i + 1, lines, cur + seq![' '] + w);
            assert(wrap_from(words, width, i, lines, cur) == wrap_from(words, width, i + 1, lines, cur + seq![' '] + w));
        } else {
            assert forall|j: int| 0 <= j < lines.push(cur).len() implies utf8_len(
                #[trigger] lines.push(cur)[j],
            ) <= width by {
                if j < lines.len() {
                    assert(lines.push(cur)[j] == lines[j]);
                }
            }
            lemma_wrap_from_fits(words, width, i + 1, lines.push(cur), w);
            assert(wrap_from(words, width, i, lines, cur) == wrap_from(words, width, i + 1, lines.push(cur), w));
        }
    } else {
        assert(utf8_len(Seq::<char>::empty()) == 0);
        assert forall|j: int| 0 <= j < lines.push(cur).len() implies utf8_len(
            #[trigger] lines.push(cur)[j],
        ) <= width by {
            if j < lines.len() {
                assert(lines.push(cur)[j] == lines[j]);
            }
        }
        let r = wrap_from(words, width, i, lines, cur);
        if cur.len() > 0 {
            assert(r == lines.push(cur));
        } else if lines.len() == 0 {
            assert(r == seq![Seq::<char>::empty()]);
            assert(r[0] == Seq::<char>::empty());
        } else {
            assert(r == lines);
        }
    }
}

/// When no word of the text is longer than the width (in bytes), no
/// wrapped line is either.
pub proof fn lemma_wrapped_lines_fit(text: Seq<char>, width: int)
    requires
        width >= 0,
        forall|j: int|
            0 <= j < words_of(text).len() ==> utf8_len(#[trigger] words_of(text)[j]) <= width,
    ensures
        forall|j: int|
            0 <= j < wrapped(text, width).len() ==> utf8_len(#[trigger] wrapped(text, width)[j])
                <= width,
{
    assert(utf8_len(Seq::<char>::empty()) == 0);
    lemma_wrap_from_fits(words_of(text), width, 0, Seq::empty(), Seq::empty());
}

/// The views of some strings.
pub open spec fn views(v: Seq<String>) -> Seq<Seq<char>> {
    v.map_values(|s: String| s@)
}

/// The words of `text`.
fn split_words(text: &str) -> (words: Vec<String>)
    ensures
        views(words@) == words_of(text@),
{
    let cs = chars_of(text);
    let mut words: Vec<String> = Vec::new();
    let mut cur = owned("");
    proof {
        reveal_strlit("");
    }
    assert(views(words@) =~= Seq::<Seq<char>>::empty());
    assert(cur@ =~= Seq::<char>::empty());
    let mut i: usize = 0;
    while i < cs.len()
        invariant
            i <= cs@.len(),
            cs@ == text@,
            words_of(text@) == split_from(cs@, i as int, cur@, views(words@)),
        decreases cs@.len() - i,
    {
        let c = cs[i];
        if char_is_whitespace(c) {
            if !cur.as_str().is_empty() {
                let ghost before = words@;
                words.push(cur);
                assert(views(words@) =~= views(before).push(cur@));
            }
            cur = owned("");
            proof {
                reveal_strlit("");
            }
            assert(cur@ =~= Seq::<char>::empty());
        } else {
            push_char(&mut cur, c);
        }
        i = i + 1;
    }
    if !cur.as_str().is_empty() {
        let ghost before = words@;
        words.push(cur);
        assert(views(words@) =~= views(before).push(cur@));
    }
    words
}

/// The byte length of `a`, a space and `b`.
proof fn lemma_utf8_len_join(a: Seq<char>, b: Seq<char>)
    ensures
        utf8_len(a + seq![' '] + b) == utf8_len(a) + 1 + utf8_len(b),
    decreases b.len(),
{
    if b.len() == 0 {
        assert(a + seq![' '] + b =~= a.push(' '));
        lemma_utf8_len_push(a, ' ');
    } else {
        lemma_utf8_len_join(a, b.drop_last());
        assert(a + seq![' '] + b =~= (a + seq![' '] + b.drop_last()).push(b.last()));
        lemma_utf8_len_push(a + seq![' '] + b.drop_last(), b.last());
    }
}

/// Wraps `text` at word boundaries into lines of at most `width` bytes (a
/// word longer than that stands alone on its line); at least one line,
/// which is empty when the text has no words.
pub fn wrap_text(text: &str, width: usize) -> (lines: Vec<String>)
    ensures
        views(lines@) == wrapped(text@, width as int),
{
    let words = split_words(text);
    let ghost ws = views(words@);
    let mut lines: Vec<String> = Vec::new();
    let mut cur = owned("");
    proof {
        reveal_strlit("");
    }
    assert(views(lines@) =~= Seq::<Seq<char>>::empty());
    assert(cur@ =~= Seq::<char>::empty());
    let mut i: usize = 0;
    while i < words.len()
        invariant
            i <= words@.len(),
            ws == views(words@),
            ws.len() == words@.len(),
            wrapped(text@, width as int) == wrap_from(
                ws,
                width as int,
                i as int,
                views(lines@),
                cur@,
            ),
        decreases words@.len() - i,
    {
        let w = &words[i];
        assert(ws[i as int] == w@);
        if cur.as_str().is_empty() {
            cur = w.clone();
        } else {
            let cl = str_byte_len(cur.as_str());
            let wl = str_byte_len(w.as_str());
            if cl < width && wl <= width - cl - 1 {
                let ghost c0 = cur@;
                push_char(&mut cur, ' ');
                push_str(&mut cur, w.as_str());
                assert(cur@ =~= c0 + seq![' '] + w@);
            } else {
                let ghost before = lines@;
                lines.push(cur);
                assert(views(lines@) =~= views(before).push(cur@));
                cur = w.clone();
            }
        }
        i = i + 1;
    }
    if !cur.as_str().is_empty() {
        let ghost before = lines@;
        lines.push(cur);
        assert(views(lines@) =~= views(before).push(cur@));
    }
    if lines.len() == 0 {
        let e = owned("");
        proof {
            reveal_strlit("");
        }
        lines.push(e);
        assert(e@ =~= Seq::<char>::empty());
        assert(views(lines@) =~= seq![Seq::<char>::empty()]);
    }
    lines
}

/// What a comment date (Unix milliseconds) is rendered from: its whole
/// seconds, rounded toward zero, and the pattern `Mon DD, YYYY HH:MM`.
pub fn comment_date_query(ts: i64) -> (q: (i64, &'static str))
    ensures
        q.0 == millis_to_secs(ts as int),
        q.1@ == "%b %d, %Y %H:%M"@,
{
    (ts / 1000, "%b %d, %Y %H:%M")
}

/// A comment date (Unix milliseconds) as `Mon DD, YYYY HH:MM` in the local
/// time zone, or `Unknown date` when it cannot be represented: the local date
/// and time of what `comment_date_query` gives, rendered with its pattern.
pub fn format_timestamp(ts: i64) -> (s: String)
    ensures
        !chrono_representable(millis_to_secs(ts as int)) ==> s@ == "Unknown date"@,
{
    let (secs, pattern) = comment_date_query(ts);
    date_text_or_unknown(local_date_text(secs, pattern))
}

} // verus!
