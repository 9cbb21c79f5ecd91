//! File paths as strings, joined the way a Unix path is extended by a
//! relative component.
use vstd::prelude::*;

use crate::text::{chars_of, owned, push_char, push_str};

verus! {

/// `base` extended by the relative component `part`: `part` alone when
/// `base` is empty, otherwise with one `/` between them (none added when
/// `base` already ends with `/`).
pub open spec fn joined_path(base: Seq<char>, part: Seq<char>) -> Seq<char> {
    if base.len() == 0 {
        part
    } else if base.last() == '/' {
        base + part
    } else {
        base + seq!['/'] + part
    }
}

/// Extends `base` by the relative component `part`.
pub fn join_path(base: &str, part: &str) -> (p: String)
    ensures
        p@ == joined_path(base@, part@),
{
    let cs = chars_of(base);
    let mut p = owned(base);
    if cs.len() > 0 && cs[cs.len() - 1] != '/' {
        push_char(&mut p, '/');
    }
    push_str(&mut p, part);
    proof {
        if cs.len() == 0 {
            assert(p@ =~= part@);
        }
    }
    p
}

} // verus!
