//! Character- and string-level building blocks shared by the rest of the
//! library: UTF-8 lengths, whitespace, decimal rendering and a few thin
//! bridges to `str` and `String` operations.
use vstd::prelude::*;

verus! {

// ---------------------------------------------------------------------------
// Specifications
// ---------------------------------------------------------------------------

/// The Unicode `White_Space` property: the characters that `char::is_whitespace`
/// accepts.
pub open spec fn is_white_space(c: char) -> bool {
    let u = c as u32;
    ||| 0x09 <= u <= 0x0D
    ||| u == 0x20
    ||| u == 0x85
    ||| u == 0xA0
    ||| u == 0x1680
    ||| 0x2000 <= u <= 0x200A
    ||| u == 0x2028
    ||| u == 0x2029
    ||| u == 0x202F
    ||| u == 0x205F
    ||| u == 0x3000
}

/// The pieces of `s` between line feeds: one more than there are line feeds
/// (the last piece is what follows the last line feed, possibly nothing).
pub open spec fn split_lf(s: Seq<char>) -> Seq<Seq<char>>
    decreases s.len(),
{
    if s.len() == 0 {
        seq![Seq::empty()]
    } else {
        let p = split_lf(s.drop_last());
        if s.last() == '\n' {
            p.push(Seq::empty())
        } else {
            p.update(p.len() - 1, p.last().push(s.last()))
        }
    }
}

/// A line ended by a line feed, without the carriage return before it.
pub open spec fn strip_cr(l: Seq<char>) -> Seq<char> {
    if l.len() > 0 && l.last() == '\r' {
        l.drop_last()
    } else {
        l
    }
}

/// The lines of `s` as `str::lines` gives them: the text is split at line
/// feeds, a carriage return before a line feed is dropped, and the text
/// after the last line feed is a line only when it is not empty.
pub open spec fn lines_of(s: Seq<char>) -> Seq<Seq<char>> {
    let p = split_lf(s);
    p.drop_last().map_values(|l: Seq<char>| strip_cr(l)) + if p.last().len() > 0 {
        seq![p.last()]
    } else {
        Seq::empty()
    }
}

/// Number of bytes that the UTF-8 encoding of `c` takes.
pub open spec fn char_width(c: char) -> nat {
    let u = c as u32;
    if u < 0x80 {
        1
    } else if u < 0x800 {
        2
    } else if u < 0x10000 {
        3
    } else {
        4
    }
}

/// Number of bytes of the UTF-8 encoding of `s` (what `str::len` returns).
pub open spec fn utf8_len(s: Seq<char>) -> nat
    decreases s.len(),
{
    if s.len() == 0 {
        0
    } else {
        utf8_len(s.drop_last()) + char_width(s.last())
    }
}

/// `n` bytes from the start of `s` fall on a character boundary: `k` is the
/// number of characters that they hold.
pub open spec fn byte_prefix_chars(s: Seq<char>, n: int, k: int) -> bool {
    0 <= k <= s.len() && utf8_len(s.take(k)) == n
}

/// Whether `n` is a character boundary of `s`.
pub open spec fn is_byte_boundary(s: Seq<char>, n: int) -> bool {
    exists|k: int| byte_prefix_chars(s, n, k)
}

/// The number of characters held by the first `n` bytes of `s` (meaningful
/// when `n` is a character boundary).
pub open spec fn boundary_chars(s: Seq<char>, n: int) -> int {
    choose|k: int| byte_prefix_chars(s, n, k)
}

/// `s` when its UTF-8 encoding fits in `max_len` bytes; otherwise its first
/// `keep` bytes followed by `...`.
pub open spec fn ellipsized(s: Seq<char>, max_len: nat, keep: nat) -> Seq<char> {
    if utf8_len(s) <= max_len {
        s
    } else {
        s.take(boundary_chars(s, keep as int)) + seq!['.', '.', '.']
    }
}

/// `s` with its leading whitespace removed.
pub open spec fn trim_front(s: Seq<char>) -> Seq<char>
    decreases s.len(),
{
    if s.len() > 0 && is_white_space(s[0]) {
        trim_front(s.drop_first())
    } else {
        s
    }
}

/// `s` with its trailing whitespace removed.
pub open spec fn trim_back(s: Seq<char>) -> Seq<char>
    decreases s.len(),
{
    if s.len() > 0 && is_white_space(s.last()) {
        trim_back(s.drop_last())
    } else {
        s
    }
}

/// `s` with whitespace removed from both ends (what `str::trim` returns).
pub open spec fn trimmed(s: Seq<char>) -> Seq<char> {
    trim_back(trim_front(s))
}

/// The decimal digit character for `d < 10`.
pub open spec fn digit_char(d: nat) -> char {
    if d == 0 {
        '0'
    } else if d == 1 {
        '1'
    } else if d == 2 {
        '2'
    } else if d == 3 {
        '3'
    } else if d == 4 {
        '4'
    } else if d == 5 {
        '5'
    } else if d == 6 {
        '6'
    } else if d == 7 {
        '7'
    } else if d == 8 {
        '8'
    } else {
        '9'
    }
}

/// Decimal rendering of a natural number, without leading zeros.
pub open spec fn nat_decimal(n: nat) -> Seq<char>
    decreases n,
{
    if n < 10 {
        seq![digit_char(n)]
    } else {
        nat_decimal(n / 10).push(digit_char(n % 10))
    }
}

/// Decimal rendering of an integer, with a leading `-` when it is negative
/// (what `to_string` gives for Rust's integer types).
pub open spec fn int_decimal(i: int) -> Seq<char> {
    if i < 0 {
        seq!['-'] + nat_decimal((-i) as nat)
    } else {
        nat_decimal(i as nat)
    }
}

/// Whether `prefix` begins `s`.
pub open spec fn starts_with(s: Seq<char>, prefix: Seq<char>) -> bool {
    prefix.len() <= s.len() && s.take(prefix.len() as int) == prefix
}

/// Pads `s` with spaces on the right to `width` characters (no change when it
/// is already that long), as the `{:<width}` format does.
pub open spec fn pad_right(s: Seq<char>, width: nat) -> Seq<char> {
    if s.len() >= width {
        s
    } else {
        s + Seq::new((width - s.len()) as nat, |i: int| ' ')
    }
}

/// `a` sorts strictly before `b` in code-point (equivalently, UTF-8 byte)
/// lexicographic order, the order of `str` comparison.
pub open spec fn lex_lt(a: Seq<char>, b: Seq<char>) -> bool
    decreases a.len(),
{
    if a.len() == 0 {
        b.len() > 0
    } else if b.len() == 0 {
        false
    } else if a[0] != b[0] {
        (a[0] as u32) < (b[0] as u32)
    } else {
        lex_lt(a.drop_first(), b.drop_first())
    }
}

/// Uppercase form of a string (what `str::to_uppercase` returns).
pub uninterp spec fn spec_to_uppercase(s: Seq<char>) -> Seq<char>;

/// Lowercase form of a string (what `str::to_lowercase` returns).
pub uninterp spec fn spec_to_lowercase(s: Seq<char>) -> Seq<char>;

// ---------------------------------------------------------------------------
// Lemmas
// ---------------------------------------------------------------------------

/// Splitting at line feeds leaves at least one piece.
pub proof fn lemma_split_lf_nonempty(s: Seq<char>)
    ensures
        split_lf(s).len() >= 1,
    decreases s.len(),
{
    if s.len() > 0 {
        lemma_split_lf_nonempty(s.drop_last());
    }
}

/// The bytes of the pieces of a text.
pub open spec fn pieces_bytes(ps: Seq<Seq<char>>) -> nat
    decreases ps.len(),
{
    if ps.len() == 0 {
        0
    } else {
        pieces_bytes(ps.drop_last()) + utf8_len(ps.last())
    }
}

/// A text's bytes are those of its pieces and of the line feeds between them.
pub proof fn lemma_split_lf_bytes(s: Seq<char>)
    ensures
        utf8_len(s) + 1 == pieces_bytes(split_lf(s)) + split_lf(s).len(),
    decreases s.len(),
{
    if s.len() == 0 {
        let e = Seq::<char>::empty();
        assert(seq![e].drop_last() =~= Seq::<Seq<char>>::empty());
        assert(pieces_bytes(seq![e]) == pieces_bytes(Seq::<Seq<char>>::empty()) + utf8_len(e));
    } else {
        let d = s.drop_last();
        let p = split_lf(d);
        lemma_split_lf_bytes(d);
        lemma_split_lf_nonempty(d);
        assert(utf8_len(s) == utf8_len(d) + char_width(s.last()));
        if s.last() == '\n' {
            let q = p.push(Seq::<char>::empty());
            assert(q.drop_last() =~= p);
            assert(pieces_bytes(q) == pieces_bytes(p) + utf8_len(Seq::<char>::empty()));
        } else {
            let x = p.last().push(s.last());
            let q = p.update(p.len() - 1, x);
            assert(q.drop_last() =~= p.drop_last());
            assert(x.drop_last() =~= p.last());
            assert(utf8_len(x) == utf8_len(p.last()) + char_width(s.last()));
            assert(pieces_bytes(q) == pieces_bytes(q.drop_last()) + utf8_len(q.last()));
            assert(pieces_bytes(p) == pieces_bytes(p.drop_last()) + utf8_len(p.last()));
        }
    }
}

pub proof fn lemma_char_width_bounds(c: char)
    ensures
        1 <= char_width(c) <= 4,
{
}

pub proof fn lemma_utf8_len_push(s: Seq<char>, c: char)
    ensures
        utf8_len(s.push(c)) == utf8_len(s) + char_width(c),
{
    assert(s.push(c).drop_last() =~= s);
}

/// The byte length of a prefix grows strictly with the number of characters.
pub proof fn lemma_utf8_len_take_monotone(s: Seq<char>, a: int, b: int)
    requires
        0 <= a <= b <= s.len(),
    ensures
        utf8_len(s.take(a)) + (b - a) <= utf8_len(s.take(b)),
    decreases b - a,
{
    if a < b {
        lemma_utf8_len_take_monotone(s, a, b - 1);
        assert(s.take(b) =~= s.take(b - 1).push(s[b - 1]));
        lemma_utf8_len_push(s.take(b - 1), s[b - 1]);
    }
}

/// A character boundary is held by exactly one character count.
pub proof fn lemma_byte_prefix_unique(s: Seq<char>, n: int, k1: int, k2: int)
    requires
        byte_prefix_chars(s, n, k1),
        byte_prefix_chars(s, n, k2),
    ensures
        k1 == k2,
{
    if k1 < k2 {
        lemma_utf8_len_take_monotone(s, k1, k2);
    } else if k2 < k1 {
        lemma_utf8_len_take_monotone(s, k2, k1);
    }
}

pub proof fn lemma_utf8_len_full(s: Seq<char>)
    ensures
        utf8_len(s.take(s.len() as int)) == utf8_len(s),
{
    assert(s.take(s.len() as int) =~= s);
}

/// Lexicographic order is irreflexive.
pub proof fn lemma_lex_irreflexive(a: Seq<char>)
    ensures
        !lex_lt(a, a),
    decreases a.len(),
{
    if a.len() > 0 {
        lemma_lex_irreflexive(a.drop_first());
    }
}

/// Lexicographic order is total on distinct strings.
pub proof fn lemma_lex_total(a: Seq<char>, b: Seq<char>)
    requires
        a != b,
    ensures
        lex_lt(a, b) || lex_lt(b, a),
    decreases a.len(),
{
    if a.len() == 0 || b.len() == 0 {
        if a.len() == 0 && b.len() == 0 {
            assert(a =~= b);
        }
    } else if a[0] == b[0] {
        if a.drop_first() == b.drop_first() {
            assert(a =~= seq![a[0]] + a.drop_first());
            assert(b =~= seq![b[0]] + b.drop_first());
        }
        lemma_lex_total(a.drop_first(), b.drop_first());
    } else {
        let x = a[0] as u32;
        let y = b[0] as u32;
        vstd::utf8::char_u32_cast(a[0], x);
        vstd::utf8::char_u32_cast(b[0], y);
        assert(x != y);
    }
}

/// Lexicographic order is asymmetric.
pub proof fn lemma_lex_asymmetric(a: Seq<char>, b: Seq<char>)
    requires
        lex_lt(a, b),
    ensures
        !lex_lt(b, a),
    decreases a.len(),
{
    if a.len() > 0 && b.len() > 0 && a[0] == b[0] {
        lemma_lex_asymmetric(a.drop_first(), b.drop_first());
    }
}

/// Lexicographic order is transitive.
pub proof fn lemma_lex_transitive(a: Seq<char>, b: Seq<char>, c: Seq<char>)
    requires
        lex_lt(a, b),
        lex_lt(b, c),
    ensures
        lex_lt(a, c),
    decreases a.len(),
{
    if a.len() > 0 && b.len() > 0 && c.len() > 0 {
        if a[0] == b[0] && b[0] == c[0] {
            lemma_lex_transitive(a.drop_first(), b.drop_first(), c.drop_first());
        } else {
            let x = a[0] as u32;
            let y = b[0] as u32;
            let z = c[0] as u32;
            vstd::utf8::char_u32_cast(a[0], x);
            vstd::utf8::char_u32_cast(b[0], y);
            vstd::utf8::char_u32_cast(c[0], z);
        }
    }
}

pub proof fn lemma_nat_decimal_nonempty(n: nat)
    ensures
        nat_decimal(n).len() >= 1,
    decreases n,
{
    if n >= 10 {
        lemma_nat_decimal_nonempty(n / 10);
    }
}

// ---------------------------------------------------------------------------
// Executable helpers
// ---------------------------------------------------------------------------

/// Bytes that `c` takes in UTF-8 (what `char::len_utf8` returns).
pub fn char_len_utf8(c: char) -> (n: usize)
    ensures
        n == char_width(c),
{
    let u = c as u32;
    if u < 0x80 {
        1
    } else if u < 0x800 {
        2
    } else if u < 0x10000 {
        3
    } else {
        4
    }
}

/// Length of `s` in bytes (`str::len`): the length of its UTF-8 encoding.
#[verifier::external_body]
pub(crate) fn str_byte_len(s: &str) -> (n: usize)
    ensures
        n == utf8_len(s@),
{
    s.len()
}

/// The characters of `s`, in order.
#[verifier::external_body]
pub(crate) fn chars_of(s: &str) -> (v: Vec<char>)
    ensures
        v@ == s@,
{
    s.chars().collect()
}

/// A string made of the given characters.
#[verifier::external_body]
pub(crate) fn string_from_chars(v: &[char]) -> (s: String)
    ensures
        s@ == v@,
{
    v.iter().collect()
}

/// Appends one character (`String::push`).
#[verifier::external_body]
pub(crate) fn push_char(s: &mut String, c: char)
    ensures
        final(s)@ == old(s)@.push(c),
{
    s.push(c)
}

/// Removes the last character (`String::pop`): `None` and no change when
/// the string is empty.
#[verifier::external_body]
pub(crate) fn pop_char(s: &mut String) -> (c: Option<char>)
    ensures
        old(s)@.len() == 0 ==> c is None && final(s)@ == old(s)@,
        old(s)@.len() > 0 ==> c == Some(old(s)@.last()) && final(s)@ == old(s)@.drop_last(),
{
    s.pop()
}

/// Appends a string slice (`String::push_str`).
#[verifier::external_body]
pub(crate) fn push_str(s: &mut String, t: &str)
    ensures
        final(s)@ == old(s)@ + t@,
{
    s.push_str(t)
}

/// An owned copy of a string slice (`str::to_string`).
#[verifier::external_body]
pub(crate) fn owned(t: &str) -> (s: String)
    ensures
        s@ == t@,
{
    t.to_string()
}

/// Equality of two string slices (`str == str`).
#[verifier::external_body]
pub(crate) fn str_eq(a: &str, b: &str) -> (r: bool)
    ensures
        r == (a@ == b@),
{
    a == b
}

/// Whether `c` is whitespace (`char::is_whitespace`).
#[verifier::external_body]
pub(crate) fn char_is_whitespace(c: char) -> (b: bool)
    ensures
        b == is_white_space(c),
{
    c.is_whitespace()
}

/// The lines of `s` (`str::lines`): split at `\n` or `\r\n`, the final
/// line ending optional.
#[verifier::external_body]
pub(crate) fn str_lines(s: &str) -> (v: Vec<String>)
    ensures
        v@.map_values(|l: String| l@) == lines_of(s@),
{
    s.lines().map(String::from).collect()
}

/// `s` without leading and trailing whitespace (`str::trim`).
#[verifier::external_body]
pub(crate) fn str_trim(s: &str) -> (r: &str)
    ensures
        r@ == trimmed(s@),
{
    s.trim()
}

/// Decimal rendering of a signed integer (`i64::to_string`).
#[verifier::external_body]
pub(crate) fn i64_to_string(x: i64) -> (s: String)
    ensures
        s@ == int_decimal(x as int),
{
    x.to_string()
}

/// Decimal rendering of an unsigned integer (`u64::to_string`).
#[verifier::external_body]
pub(crate) fn u64_to_string(x: u64) -> (s: String)
    ensures
        s@ == int_decimal(x as int),
{
    x.to_string()
}

/// Uppercase form of a string (`str::to_uppercase`).
#[verifier::external_body]
pub(crate) fn to_uppercase(s: &str) -> (r: String)
    ensures
        r@ == spec_to_uppercase(s@),
{
    s.to_uppercase()
}

/// Lowercase form of a string (`str::to_lowercase`).
#[verifier::external_body]
pub(crate) fn to_lowercase(s: &str) -> (r: String)
    ensures
        r@ == spec_to_lowercase(s@),
{
    s.to_lowercase()
}

/// The number of characters in the first `keep` bytes of `s`.
pub fn char_index_at_byte(s: &Vec<char>, keep: usize) -> (k: usize)
    requires
        is_byte_boundary(s@, keep as int),
    ensures
        byte_prefix_chars(s@, keep as int, k as int),
        k == boundary_chars(s@, keep as int),
{
    let ghost kstar = boundary_chars(s@, keep as int);
    proof {
        assert(byte_prefix_chars(s@, keep as int, kstar));
    }
    let mut k: usize = 0;
    let mut total: usize = 0;
    while total < keep
        invariant
            byte_prefix_chars(s@, keep as int, kstar),
            kstar <= s.len(),
            k <= kstar,
            total == utf8_len(s@.take(k as int)),
        decreases kstar - k,
    {
        assert(k < kstar);
        proof {
            assert(s@.take(k + 1) =~= s@.take(k as int).push(s@[k as int]));
            lemma_utf8_len_push(s@.take(k as int), s@[k as int]);
            lemma_utf8_len_take_monotone(s@, k + 1, kstar);
        }
        total = total + char_len_utf8(s[k]);
        k = k + 1;
    }
    proof {
        if k < kstar {
            lemma_utf8_len_take_monotone(s@, k as int, kstar);
        }
    }
    k
}

/// The first `k` characters of `s`.
pub fn take_chars(s: &Vec<char>, k: usize) -> (r: Vec<char>)
    requires
        k <= s.len(),
    ensures
        r@ == s@.take(k as int),
{
    let mut out: Vec<char> = Vec::new();
    let mut i: usize = 0;
    while i < k
        invariant
            k <= s.len(),
            i <= k,
            out@ == s@.take(i as int),
        decreases k - i,
    {
        out.push(s[i]);
        proof {
            assert(s@.take(i + 1) =~= s@.take(i as int).push(s@[i as int]));
        }
        i = i + 1;
    }
    out
}

/// The characters of `s` from index `k` on.
pub fn skip_chars(s: &Vec<char>, k: usize) -> (r: Vec<char>)
    requires
        k <= s.len(),
    ensures
        r@ == s@.skip(k as int),
{
    let mut out: Vec<char> = Vec::new();
    let mut i: usize = k;
    while i < s.len()
        invariant
            k <= i <= s.len(),
            out@ == s@.subrange(k as int, i as int),
        decreases s.len() - i,
    {
        out.push(s[i]);
        proof {
            assert(s@.subrange(k as int, i + 1) =~= s@.subrange(k as int, i as int).push(
                s@[i as int],
            ));
        }
        i = i + 1;
    }
    assert(s@.subrange(k as int, s.len() as int) =~= s@.skip(k as int));
    out
}

/// The first `keep` bytes of `s` (`&s[..keep]`, which panics unless `keep`
/// is a character boundary).
pub fn take_bytes(s: &str, keep: usize) -> (r: String)
    requires
        is_byte_boundary(s@, keep as int),
    ensures
        r@ == s@.take(boundary_chars(s@, keep as int)),
{
    let chars = chars_of(s);
    let k = char_index_at_byte(&chars, keep);
    let out = take_chars(&chars, k);
    string_from_chars(out.as_slice())
}

/// `s` with `c` inserted at byte offset `at` (`String::insert`, which panics
/// unless `at` is a character boundary).
pub fn insert_at_byte(s: &String, at: usize, c: char) -> (r: String)
    requires
        is_byte_boundary(s@, at as int),
    ensures
        r@ == s@.take(boundary_chars(s@, at as int)) + seq![c] + s@.skip(
            boundary_chars(s@, at as int),
        ),
{
    let chars = chars_of(s.as_str());
    let k = char_index_at_byte(&chars, at);
    let mut out = take_chars(&chars, k);
    out.push(c);
    let mut tail = skip_chars(&chars, k);
    out.append(&mut tail);
    string_from_chars(out.as_slice())
}

/// `s` without the character that starts at byte offset `at`
/// (`String::remove`, which panics unless `at` is a character boundary
/// before the end).
pub fn remove_at_byte(s: &String, at: usize) -> (r: String)
    requires
        is_byte_boundary(s@, at as int),
        at < utf8_len(s@),
    ensures
        boundary_chars(s@, at as int) < s@.len(),
        r@ == s@.take(boundary_chars(s@, at as int)) + s@.skip(boundary_chars(s@, at as int) + 1),
{
    let chars = chars_of(s.as_str());
    let k = char_index_at_byte(&chars, at);
    proof {
        if k as int == s@.len() {
            assert(s@.take(k as int) =~= s@);
        }
    }
    let mut out = take_chars(&chars, k);
    let mut tail = skip_chars(&chars, k + 1);
    out.append(&mut tail);
    string_from_chars(out.as_slice())
}

/// `s` unchanged when it is at most `max_len` bytes long, otherwise its first
/// `keep` bytes followed by `...`.
pub fn ellipsize(s: &str, max_len: usize, keep: usize) -> (r: String)
    requires
        utf8_len(s@) > max_len ==> is_byte_boundary(s@, keep as int),
    ensures
        r@ == ellipsized(s@, max_len as nat, keep as nat),
{
    let n = str_byte_len(s);
    if n <= max_len {
        owned(s)
    } else {
        let mut r = take_bytes(s, keep);
        push_str(&mut r, "...");
        proof {
            reveal_strlit("...");
        }
        r
    }
}

/// Whether `a` sorts strictly before `b` (`a < b` on strings).
pub fn str_less(a: &str, b: &str) -> (r: bool)
    ensures
        r == lex_lt(a@, b@),
{
    let av = chars_of(a);
    let bv = chars_of(b);
    let mut i: usize = 0;
    assert(a@.skip(0) =~= a@);
    assert(b@.skip(0) =~= b@);
    while i < av.len() && i < bv.len()
        invariant
            av@ == a@,
            bv@ == b@,
            i <= av.len(),
            i <= bv.len(),
            forall|j: int| 0 <= j < i ==> av@[j] == bv@[j],
            lex_lt(a@, b@) == lex_lt(a@.skip(i as int), b@.skip(i as int)),
        decreases av.len() - i,
    {
        let x = av[i];
        let y = bv[i];
        proof {
            assert(a@.skip(i as int)[0] == x);
            assert(b@.skip(i as int)[0] == y);
            assert(a@.skip(i as int).drop_first() =~= a@.skip(i + 1));
            assert(b@.skip(i as int).drop_first() =~= b@.skip(i + 1));
        }
        if x != y {
            return (x as u32) < (y as u32);
        }
        i = i + 1;
    }
    i < bv.len()
}

/// Whether `prefix` begins `s`.
pub fn has_prefix(s: &str, prefix: &str) -> (r: bool)
    ensures
        r == starts_with(s@, prefix@),
{
    let sv = chars_of(s);
    let pv = chars_of(prefix);
    if pv.len() > sv.len() {
        return false;
    }
    let mut i: usize = 0;
    while i < pv.len()
        invariant
            pv.len() <= sv.len(),
            i <= pv.len(),
            sv@ == s@,
            pv@ == prefix@,
            forall|j: int| 0 <= j < i ==> sv@[j] == pv@[j],
        decreases pv.len() - i,
    {
        if sv[i] != pv[i] {
            assert(sv@.take(pv.len() as int)[i as int] != pv@[i as int]);
            return false;
        }
        i = i + 1;
    }
    assert(sv@.take(pv.len() as int) =~= pv@);
    true
}

/// Pads `s` with spaces on the right to `width` characters.
pub fn padded_right(s: &str, width: usize) -> (r: String)
    ensures
        r@ == pad_right(s@, width as nat),
{
    let mut out = owned(s);
    let n = chars_of(s).len();
    if n >= width {
        return out;
    }
    let mut i: usize = n;
    while i < width
        invariant
            n == s@.len(),
            n <= i <= width,
            out@ == s@ + Seq::new((i - n) as nat, |j: int| ' '),
        decreases width - i,
    {
        push_char(&mut out, ' ');
        proof {
            assert(out@ =~= s@ + Seq::new((i + 1 - n) as nat, |j: int| ' '));
        }
        i = i + 1;
    }
    out
}

} // verus!
