//! Short screen identifiers shown in the title bar for bug reports.
//!
//! Each screen gets a deterministic 4-character base-36 id derived from a hash
//! of its name.
use std::hash::{Hash, Hasher};
use vstd::prelude::*;

use crate::text::{chars_of, str_byte_len, string_from_chars, utf8_len};

verus! {

/// What `hash_screen_name` computes for a screen name: the result of hashing
/// the name with std's `DefaultHasher`.
pub uninterp spec fn spec_screen_hash(name: Seq<char>) -> u64;

/// The base-36 digits, in order: `0`-`9` then `a`-`z`.
pub open spec fn base36_alphabet() -> Seq<char> {
    seq![
        '0', '1', '2', '3', '4', '5', '6', '7', '8', '9', 'a', 'b', 'c', 'd', 'e', 'f', 'g', 'h',
        'i', 'j', 'k', 'l', 'm', 'n', 'o', 'p', 'q', 'r', 's', 't', 'u', 'v', 'w', 'x', 'y', 'z',
    ]
}

/// The four characters that encode a hash: the base-36 digit of the hash
/// shifted by 0, 8, 16 and 24 bits, each taken modulo 36.
pub open spec fn base36_id(hash: u64) -> Seq<char> {
    seq![
        base36_alphabet()[(hash % 36) as int],
        base36_alphabet()[((hash >> 8u64) % 36) as int],
        base36_alphabet()[((hash >> 16u64) % 36) as int],
        base36_alphabet()[((hash >> 24u64) % 36) as int],
    ]
}

/// A lowercase ASCII letter or an ASCII digit.
pub open spec fn is_id_char(c: char) -> bool {
    ('a' <= c && c <= 'z') || ('0' <= c && c <= '9')
}

/// A well-formed screen id: exactly 4 bytes, all lowercase letters or digits.
pub open spec fn is_valid_screen_id(id: Seq<char>) -> bool {
    utf8_len(id) == 4 && forall|i: int| 0 <= i < id.len() ==> is_id_char(#[trigger] id[i])
}

/// Every character of the base-36 alphabet is a valid id character.
pub proof fn lemma_base36_alphabet_chars(d: int)
    requires
        0 <= d < 36,
    ensures
        is_id_char(base36_alphabet()[d]),
{
}

/// Generates the screen id of a screen name: the same name always gives the
/// same id.
pub fn generate_screen_id(screen_name: &str) -> (id: String)
    ensures
        id@ == base36_id(spec_screen_hash(screen_name@)),
{
    let hash = hash_screen_name(screen_name);
    hash_to_base36(hash)
}

/// Hashes a screen name with std's `DefaultHasher` (keys fixed, so the value
/// depends on the name alone within a given std release).
#[verifier::external_body]
fn hash_screen_name(screen_name: &str) -> (h: u64)
    ensures
        h == spec_screen_hash(screen_name@),
{
    let mut hasher = std::collections::hash_map::DefaultHasher::new();
    screen_name.hash(&mut hasher);
    hasher.finish()
}

/// Encodes a hash as four base-36 characters.
pub fn hash_to_base36(hash: u64) -> (id: String)
    ensures
        id@ == base36_id(hash),
{
    let table: [char; 36] = [
        '0', '1', '2', '3', '4', '5', '6', '7', '8', '9', 'a', 'b', 'c', 'd', 'e', 'f', 'g', 'h',
        'i', 'j', 'k', 'l', 'm', 'n', 'o', 'p', 'q', 'r', 's', 't', 'u', 'v', 'w', 'x', 'y', 'z',
    ];
    assert(table@ =~= base36_alphabet());
    let c1 = table[(hash % 36) as usize];
    let c2 = table[((hash >> 8u64) % 36) as usize];
    let c3 = table[((hash >> 16u64) % 36) as usize];
    let c4 = table[((hash >> 24u64) % 36) as usize];
    let v: Vec<char> = vec![c1, c2, c3, c4];
    let r = string_from_chars(v.as_slice());
    assert(r@ =~= base36_id(hash));
    r
}

/// Checks that an id is exactly 4 bytes of lowercase letters and digits.
pub fn validate_screen_id(id: &str) -> (ok: bool)
    ensures
        ok == is_valid_screen_id(id@),
{
    let chars = chars_of(id);
    if str_byte_len(id) != 4 {
        return false;
    }
    let mut i: usize = 0;
    while i < chars.len()
        invariant
            chars@ == id@,
            utf8_len(id@) == 4,
            i <= chars.len(),
            forall|j: int| 0 <= j < i ==> is_id_char(#[trigger] chars@[j]),
        decreases chars.len() - i,
    {
        let c = chars[i];
        if !(('a' <= c && c <= 'z') || ('0' <= c && c <= '9')) {
            assert(!is_id_char(id@[i as int]));
            return false;
        }
        i = i + 1;
    }
    true
}

/// Ids produced from a hash are always well-formed.
pub proof fn lemma_generated_id_valid(hash: u64)
    ensures
        is_valid_screen_id(base36_id(hash)),
{
    let id = base36_id(hash);
    assert forall|i: int| 0 <= i < id.len() implies is_id_char(#[trigger] id[i]) by {
        if i == 0 {
            lemma_base36_alphabet_chars((hash % 36) as int);
        } else if i == 1 {
            lemma_base36_alphabet_chars(((hash >> 8u64) % 36) as int);
        } else if i == 2 {
            lemma_base36_alphabet_chars(((hash >> 16u64) % 36) as int);
        } else {
            lemma_base36_alphabet_chars(((hash >> 24u64) % 36) as int);
        }
    }
    reveal_with_fuel(utf8_len, 5);
    assert(id.drop_last().drop_last().drop_last().drop_last() =~= Seq::<char>::empty());
}

} // verus!
