//! Building URL query strings from filter parameters.
use vstd::prelude::*;
use vstd::string::StringSliceAdditionalSpecFns;

use crate::text::{i64_to_string, int_decimal, owned, push_char, push_str, u64_to_string};

verus! {

/// One `key=value` pair, as characters.
pub type QueryPair = (Seq<char>, Seq<char>);

/// `key=value`.
pub open spec fn pair_text(p: QueryPair) -> Seq<char> {
    p.0 + seq!['='] + p.1
}

/// The pairs joined with `&`.
pub open spec fn join_pairs(ps: Seq<QueryPair>) -> Seq<char>
    decreases ps.len(),
{
    if ps.len() == 0 {
        Seq::empty()
    } else if ps.len() == 1 {
        pair_text(ps[0])
    } else {
        join_pairs(ps.drop_last()) + seq!['&'] + pair_text(ps.last())
    }
}

/// The query string of a parameter list: empty when there are no parameters,
/// otherwise `?` followed by the pairs joined with `&`.
pub open spec fn query_string(ps: Seq<QueryPair>) -> Seq<char> {
    if ps.len() == 0 {
        Seq::empty()
    } else {
        seq!['?'] + join_pairs(ps)
    }
}

/// Display text of a boolean.
pub open spec fn bool_text(b: bool) -> Seq<char> {
    if b {
        seq!['t', 'r', 'u', 'e']
    } else {
        seq!['f', 'a', 'l', 's', 'e']
    }
}

/// A byte that is sent as-is in a URL (RFC 3986 unreserved characters).
pub open spec fn is_unreserved(b: u8) -> bool {
    (0x41 <= b <= 0x5A) || (0x61 <= b <= 0x7A) || (0x30 <= b <= 0x39) || b == 0x2D || b == 0x2E
        || b == 0x5F || b == 0x7E
}

/// Upper-case hexadecimal digit of a value below 16.
pub open spec fn hex_digit(v: u8) -> char {
    if v < 10 {
        (v + 0x30) as char
    } else {
        (v - 10 + 0x41) as char
    }
}

/// Percent-encoding of a byte string: unreserved bytes stay, every other byte
/// becomes `%XY` with upper-case hex digits.
pub open spec fn percent_encode(bytes: Seq<u8>) -> Seq<char>
    decreases bytes.len(),
{
    if bytes.len() == 0 {
        Seq::empty()
    } else {
        let b = bytes.last();
        percent_encode(bytes.drop_last()) + if is_unreserved(b) {
            seq![b as char]
        } else {
            seq!['%', hex_digit(b / 16), hex_digit(b % 16)]
        }
    }
}

/// Ordered list of query parameters.
pub struct QueryParams {
    pub pairs: Vec<(String, String)>,
}

impl QueryParams {
    /// The parameters as character pairs, in the order they were added.
    pub open spec fn pairs_view(&self) -> Seq<QueryPair> {
        self.pairs@.map_values(|p: (String, String)| (p.0@, p.1@))
    }

    /// No parameters.
    pub fn new() -> (q: Self)
        ensures
            q.pairs_view() == Seq::<QueryPair>::empty(),
    {
        let q = QueryParams { pairs: Vec::new() };
        assert(q.pairs_view() =~= Seq::<QueryPair>::empty());
        q
    }

    /// Appends `key=value`.
    pub fn add(&mut self, key: &str, value: String)
        ensures
            final(self).pairs_view() == old(self).pairs_view().push((key@, value@)),
    {
        let ghost before = self.pairs_view();
        self.pairs.push((owned(key), value));
        assert(self.pairs_view() =~= before.push((key@, value@)));
    }

    /// Appends `key=value` when a value is given.
    pub fn add_opt_str(&mut self, key: &str, value: &Option<String>)
        ensures
            final(self).pairs_view() == match value {
                Some(v) => old(self).pairs_view().push((key@, v@)),
                None => old(self).pairs_view(),
            },
    {
        match value {
            Some(v) => self.add(key, v.clone()),
            None => {},
        }
    }

    /// Appends `key=true` or `key=false` when a value is given.
    pub fn add_opt_bool(&mut self, key: &str, value: Option<bool>)
        ensures
            final(self).pairs_view() == match value {
                Some(v) => old(self).pairs_view().push((key@, bool_text(v))),
                None => old(self).pairs_view(),
            },
    {
        match value {
            Some(v) => {
                let t = if v {
                    owned("true")
                } else {
                    owned("false")
                };
                proof {
                    reveal_strlit("true");
                    reveal_strlit("false");
                    assert(t@ =~= bool_text(v));
                }
                self.add(key, t);
            },
            None => {},
        }
    }

    /// Appends `key=<decimal>` when a value is given.
    pub fn add_opt_u32(&mut self, key: &str, value: Option<u32>)
        ensures
            final(self).pairs_view() == match value {
                Some(v) => old(self).pairs_view().push((key@, int_decimal(v as int))),
                None => old(self).pairs_view(),
            },
    {
        match value {
            Some(v) => self.add(key, u64_to_string(v as u64)),
            None => {},
        }
    }

    /// Appends `key=<decimal>` when a value is given.
    pub fn add_opt_i64(&mut self, key: &str, value: Option<i64>)
        ensures
            final(self).pairs_view() == match value {
                Some(v) => old(self).pairs_view().push((key@, int_decimal(v as int))),
                None => old(self).pairs_view(),
            },
    {
        match value {
            Some(v) => self.add(key, i64_to_string(v)),
            None => {},
        }
    }

    /// Appends `key=<percent-encoded value>` when a value is given.
    pub fn add_opt_encoded(&mut self, key: &str, value: Option<&str>)
        ensures
            final(self).pairs_view() == match value {
                Some(v) => old(self).pairs_view().push((key@, percent_encode(v.spec_bytes()))),
                None => old(self).pairs_view(),
            },
    {
        match value {
            Some(v) => {
                let e = url_encode(v);
                self.add(key, e);
            },
            None => {},
        }
    }

    /// Appends `key[]=v` for each string value, in order.
    pub fn add_all_str(&mut self, key: &str, values: &Vec<String>)
        ensures
            final(self).pairs_view() == old(self).pairs_view() + values@.map_values(
                |v: String| (key@ + seq!['[', ']'], v@),
            ),
    {
        let ghost before = self.pairs_view();
        let mut k = owned(key);
        push_str(&mut k, "[]");
        proof {
            reveal_strlit("[]");
        }
        let mut i: usize = 0;
        while i < values.len()
            invariant
                i <= values.len(),
                k@ == key@ + seq!['[', ']'],
                self.pairs_view() == before + values@.take(i as int).map_values(
                    |v: String| (key@ + seq!['[', ']'], v@),
                ),
            decreases values.len() - i,
        {
            let ghost prev = self.pairs_view();
            self.add(k.as_str(), values[i].clone());
            proof {
                assert(values@.take(i + 1) =~= values@.take(i as int).push(values@[i as int]));
                assert(self.pairs_view() =~= before + values@.take(i + 1).map_values(
                    |v: String| (key@ + seq!['[', ']'], v@),
                ));
            }
            i = i + 1;
        }
        assert(values@.take(values.len() as int) =~= values@);
    }

    /// Appends `key[]=<decimal>` for each integer value, in order.
    pub fn add_all_i64(&mut self, key: &str, values: &Vec<i64>)
        ensures
            final(self).pairs_view() == old(self).pairs_view() + values@.map_values(
                |v: i64| (key@ + seq!['[', ']'], int_decimal(v as int)),
            ),
    {
        let ghost before = self.pairs_view();
        let mut k = owned(key);
        push_str(&mut k, "[]");
        proof {
            reveal_strlit("[]");
        }
        let mut i: usize = 0;
        while i < values.len()
            invariant
                i <= values.len(),
                k@ == key@ + seq!['[', ']'],
                self.pairs_view() == before + values@.take(i as int).map_values(
                    |v: i64| (key@ + seq!['[', ']'], int_decimal(v as int)),
                ),
            decreases values.len() - i,
        {
            self.add(k.as_str(), i64_to_string(values[i]));
            proof {
                assert(values@.take(i + 1) =~= values@.take(i as int).push(values@[i as int]));
                assert(self.pairs_view() =~= before + values@.take(i + 1).map_values(
                    |v: i64| (key@ + seq!['[', ']'], int_decimal(v as int)),
                ));
            }
            i = i + 1;
        }
        assert(values@.take(values.len() as int) =~= values@);
    }

    /// `?k1=v1&k2=v2...`, or the empty string when there are no parameters.
    pub fn to_query_string(&self) -> (s: String)
        ensures
            s@ == query_string(self.pairs_view()),
    {
        let mut out = owned("");
        proof {
            reveal_strlit("");
        }
        let mut i: usize = 0;
        while i < self.pairs.len()
            invariant
                i <= self.pairs.len(),
                out@ == query_string(self.pairs_view().take(i as int)),
            decreases self.pairs.len() - i,
        {
            if i == 0 {
                push_char(&mut out, '?');
            } else {
                push_char(&mut out, '&');
            }
            push_str(&mut out, self.pairs[i].0.as_str());
            push_char(&mut out, '=');
            push_str(&mut out, self.pairs[i].1.as_str());
            proof {
                let ps = self.pairs_view();
                assert(ps.take(i + 1).drop_last() =~= ps.take(i as int));
                if i > 0 {
                    assert(ps.take(i as int).len() > 0);
                }
                assert(out@ =~= query_string(ps.take(i + 1)));
            }
            i = i + 1;
        }
        assert(self.pairs_view().take(self.pairs.len() as int) =~= self.pairs_view());
        out
    }
}

/// The upper-case hex digit for a value below 16.
fn hex_char(v: u8) -> (c: char)
    requires
        v < 16,
    ensures
        c == hex_digit(v),
{
    if v < 10 {
        (v + 0x30) as char
    } else {
        (v - 10 + 0x41) as char
    }
}

/// Percent-encodes the UTF-8 bytes of `s`.
pub fn url_encode(s: &str) -> (r: String)
    ensures
        r@ == percent_encode(s.spec_bytes()),
{
    let bytes = s.as_bytes();
    let mut out = owned("");
    proof {
        reveal_strlit("");
    }
    let mut i: usize = 0;
    while i < bytes.len()
        invariant
            i <= bytes.len(),
            bytes@ == s.spec_bytes(),
            out@ == percent_encode(bytes@.take(i as int)),
        decreases bytes.len() - i,
    {
        let b = bytes[i];
        proof {
            assert(bytes@.take(i + 1).drop_last() =~= bytes@.take(i as int));
        }
        if (0x41 <= b && b <= 0x5A) || (0x61 <= b && b <= 0x7A) || (0x30 <= b && b <= 0x39)
            || b == 0x2D || b == 0x2E || b == 0x5F || b == 0x7E {
            push_char(&mut out, b as char);
        } else {
            push_char(&mut out, '%');
            push_char(&mut out, hex_char(b / 16));
            push_char(&mut out, hex_char(b % 16));
        }
        proof {
            assert(out@ =~= percent_encode(bytes@.take(i + 1)));
        }
        i = i + 1;
    }
    assert(bytes@.take(bytes.len() as int) =~= bytes@);
    out
}

} // verus!
