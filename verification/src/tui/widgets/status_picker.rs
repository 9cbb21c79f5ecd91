//! Colours of the statuses offered by the status picker.
use vstd::prelude::*;

use crate::text::{chars_of, is_byte_boundary, skip_chars, str_byte_len, string_from_chars, utf8_len};

verus! {

/// `s` without its leading `#` characters (`str::trim_start_matches('#')`).
pub open spec fn trim_hashes(s: Seq<char>) -> Seq<char>
    decreases s.len(),
{
    if s.len() > 0 && s[0] == '#' {
        trim_hashes(s.drop_first())
    } else {
        s
    }
}

/// The value of a hexadecimal digit.
pub open spec fn hex_digit(c: char) -> Option<u8> {
    if '0' <= c <= '9' {
        Some((c as u32 - '0' as u32) as u8)
    } else if 'a' <= c <= 'f' {
        Some((c as u32 - 'a' as u32 + 10) as u8)
    } else if 'A' <= c <= 'F' {
        Some((c as u32 - 'A' as u32 + 10) as u8)
    } else {
        None
    }
}

/// What `u8::from_str_radix` gives for two characters in base 16: an
/// optional `+` and one digit, or two digits.
pub open spec fn hex_pair(a: char, b: char) -> Option<u8> {
    if a == '+' {
        hex_digit(b)
    } else {
        match (hex_digit(a), hex_digit(b)) {
            (Some(x), Some(y)) => Some((16 * x + y) as u8),
            _ => None,
        }
    }
}

/// The colour a status shows in: `#rrggbb` (any number of leading `#`),
/// each component two hexadecimal digits; nothing for anything else.
pub open spec fn hex_color(hex: Seq<char>) -> Option<(u8, u8, u8)> {
    let t = trim_hashes(hex);
    if t.len() == 6 && utf8_len(t) == 6 {
        match (hex_pair(t[0], t[1]), hex_pair(t[2], t[3]), hex_pair(t[4], t[5])) {
            (Some(r), Some(g), Some(b)) => Some((r, g, b)),
            _ => None,
        }
    } else {
        None
    }
}

proof fn lemma_trim_step(s: Seq<char>, k: int)
    requires
        0 <= k < s.len(),
        s[k] == '#',
    ensures
        trim_hashes(s.skip(k)) == trim_hashes(s.skip(k + 1)),
{
    assert(s.skip(k).drop_first() =~= s.skip(k + 1));
}

fn digit_value(c: char) -> (r: Option<u8>)
    ensures
        r == hex_digit(c),
{
    if '0' <= c && c <= '9' {
        Some((c as u32 - '0' as u32) as u8)
    } else if 'a' <= c && c <= 'f' {
        Some((c as u32 - 'a' as u32 + 10) as u8)
    } else if 'A' <= c && c <= 'F' {
        Some((c as u32 - 'A' as u32 + 10) as u8)
    } else {
        None
    }
}

fn pair_value(a: char, b: char) -> (r: Option<u8>)
    ensures
        r == hex_pair(a, b),
{
    if a == '+' {
        digit_value(b)
    } else {
        match (digit_value(a), digit_value(b)) {
            (Some(x), Some(y)) => Some(16 * x + y),
            _ => None,
        }
    }
}

/// The colour of a status (see `hex_color`). The text after the leading `#`
/// is cut in three two-byte pieces, which must fall on character boundaries.
pub fn parse_hex_color(hex: &str) -> (r: Option<(u8, u8, u8)>)
    requires
        utf8_len(trim_hashes(hex@)) == 6 ==> is_byte_boundary(trim_hashes(hex@), 2)
            && is_byte_boundary(trim_hashes(hex@), 4),
    ensures
        r == hex_color(hex@),
{
    let cs = chars_of(hex);
    let mut k: usize = 0;
    assert(cs@.skip(0) =~= cs@);
    while k < cs.len() && cs[k] == '#'
        invariant
            k <= cs@.len(),
            cs@ == hex@,
            trim_hashes(hex@) == trim_hashes(cs@.skip(k as int)),
        decreases cs@.len() - k,
    {
        proof {
            lemma_trim_step(cs@, k as int);
        }
        k = k + 1;
    }
    let t = skip_chars(&cs, k);
    proof {
        assert(trim_hashes(t@) == t@);
    }
    let text = string_from_chars(t.as_slice());
    if t.len() != 6 || str_byte_len(text.as_str()) != 6 {
        return None;
    }
    match (pair_value(t[0], t[1]), pair_value(t[2], t[3]), pair_value(t[4], t[5])) {
        (Some(r), Some(g), Some(b)) => Some((r, g, b)),
        _ => None,
    }
}

} // verus!
