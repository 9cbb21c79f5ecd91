//! The API token entry form.
use vstd::prelude::*;

use crate::text::{
    boundary_chars, byte_prefix_chars, insert_at_byte, is_byte_boundary, lemma_byte_prefix_unique,
    lemma_utf8_len_push, lemma_utf8_len_take_monotone, owned, remove_at_byte, str_byte_len, utf8_len,
};

verus! {

/// State of the token form.
#[derive(Debug, Clone)]
pub struct AuthState {
    /// The token typed so far.
    pub token_input: String,
    /// Cursor position, in bytes.
    pub cursor_pos: usize,
    /// Error to show.
    pub error: Option<String>,
    /// Whether authentication is in progress.
    pub loading: bool,
}

/// The token after inserting `c` at byte offset `at`.
pub open spec fn inserted_at(t: Seq<char>, at: int, c: char) -> Seq<char> {
    t.take(boundary_chars(t, at)) + seq![c] + t.skip(boundary_chars(t, at))
}

/// The token after removing the character that starts at byte offset `at`.
pub open spec fn removed_at(t: Seq<char>, at: int) -> Seq<char> {
    t.take(boundary_chars(t, at)) + t.skip(boundary_chars(t, at) + 1)
}

/// What `add_char` does to the form: `c` is inserted at the cursor, which
/// moves one byte on; the error and the loading flag stay.
pub open spec fn char_added(a: AuthState, b: AuthState, c: char) -> bool {
    &&& b.token_input@ == inserted_at(a.token_input@, a.cursor_pos as int, c)
    &&& b.cursor_pos == a.cursor_pos + 1
    &&& b.error == a.error
    &&& b.loading == a.loading
}

/// What `remove_char` does to the form: away from the start, the cursor moves
/// one byte back and the character starting there is removed; at the start
/// nothing changes. The error and the loading flag stay.
pub open spec fn char_removed(a: AuthState, b: AuthState) -> bool {
    &&& if a.cursor_pos > 0 {
        b.cursor_pos == a.cursor_pos - 1 && b.token_input@ == removed_at(
            a.token_input@,
            a.cursor_pos - 1,
        )
    } else {
        b.cursor_pos == 0 && b.token_input@ == a.token_input@
    }
    &&& b.error == a.error
    &&& b.loading == a.loading
}

impl Default for AuthState {
    fn default() -> (s: Self)
        ensures
            s.token_input@ == Seq::<char>::empty(),
            s.cursor_pos == 0,
            s.error is None,
            !s.loading,
    {
        AuthState::new()
    }
}

impl AuthState {
    /// An empty form.
    pub fn new() -> (s: Self)
        ensures
            s.token_input@ == Seq::<char>::empty(),
            s.cursor_pos == 0,
            s.error is None,
            !s.loading,
    {
        AuthState { token_input: String::new(), cursor_pos: 0, error: None, loading: false }
    }

    /// Inserts a character at the cursor and moves the cursor one byte on.
    pub fn add_char(&mut self, c: char)
        requires
            is_byte_boundary(old(self).token_input@, old(self).cursor_pos as int),
        ensures
            char_added(*old(self), *final(self), c),
    {
        let longer = insert_at_byte(&self.token_input, self.cursor_pos, c);
        let n = str_byte_len(longer.as_str());
        proof {
            // The cursor stays before the end of a string that exists, so it
            // can move on by one.
            lemma_insert_then_remove(self.token_input@, self.cursor_pos as int, c);
            assert(self.cursor_pos < n);
        }
        self.token_input = longer;
        self.cursor_pos = self.cursor_pos + 1;
    }

    /// Moves the cursor one byte back and removes the character that starts
    /// there; does nothing at the start.
    pub fn remove_char(&mut self)
        requires
            old(self).cursor_pos > 0 ==> is_byte_boundary(
                old(self).token_input@,
                old(self).cursor_pos - 1,
            ) && old(self).cursor_pos - 1 < utf8_len(old(self).token_input@),
        ensures
            char_removed(*old(self), *final(self)),
    {
        if self.cursor_pos > 0 {
            self.cursor_pos = self.cursor_pos - 1;
            self.token_input = remove_at_byte(&self.token_input, self.cursor_pos);
        }
    }

    /// Starts signing in with the typed token: an empty token is refused
    /// (`Token cannot be empty`); otherwise the form shows that it is busy and
    /// the token is returned, to be stored and used.
    pub fn begin_authentication(&mut self, status: &mut String) -> (token: Option<String>)
        ensures
            old(self).token_input@.len() == 0 ==> {
                &&& token is None
                &&& final(self).token_input == old(self).token_input
                &&& final(self).cursor_pos == old(self).cursor_pos
                &&& final(self).loading == old(self).loading
                &&& final(self).error matches Some(e) && e@ == "Token cannot be empty"@
                &&& final(status)@ == "Authentication failed"@
            },
            old(self).token_input@.len() > 0 ==> {
                &&& token matches Some(t) && t@ == old(self).token_input@
                &&& *final(self) == AuthState { loading: true, ..*old(self) }
                &&& final(status)@ == "Authenticating..."@
            },
    {
        if self.token_input.as_str().is_empty() {
            self.error = Some(owned("Token cannot be empty"));
            *status = owned("Authentication failed");
            None
        } else {
            self.loading = true;
            *status = owned("Authenticating...");
            Some(self.token_input.clone())
        }
    }

    /// Empties the form and clears the error.
    pub fn clear(&mut self)
        ensures
            final(self).token_input@ == Seq::<char>::empty(),
            final(self).cursor_pos == 0,
            final(self).error is None,
            final(self).loading == old(self).loading,
    {
        self.token_input = String::new();
        self.cursor_pos = 0;
        self.error = None;
    }
}

/// Typing a character and deleting it again restores the token: removing
/// at the byte offset where a character was inserted takes that character
/// out.
pub proof fn lemma_insert_then_remove(t: Seq<char>, at: int, c: char)
    requires
        is_byte_boundary(t, at),
    ensures
        is_byte_boundary(inserted_at(t, at, c), at),
        at < utf8_len(inserted_at(t, at, c)),
        removed_at(inserted_at(t, at, c), at) == t,
{
    let k = boundary_chars(t, at);
    assert(byte_prefix_chars(t, at, k));
    let t2 = inserted_at(t, at, c);
    assert(t2.take(k) =~= t.take(k));
    assert(byte_prefix_chars(t2, at, k));
    let k2 = boundary_chars(t2, at);
    assert(byte_prefix_chars(t2, at, k2));
    lemma_byte_prefix_unique(t2, at, k, k2);
    assert(t2.take(k + 1) =~= t.take(k).push(c));
    lemma_utf8_len_push(t.take(k), c);
    lemma_utf8_len_take_monotone(t2, k + 1, t2.len() as int);
    assert(t2.take(t2.len() as int) =~= t2);
    assert(t2.take(k) + t2.skip(k + 1) =~= t);
}

/// Typing a character into the token form and deleting it again gives the
/// form back: the same token, cursor, error and loading flag. After typing,
/// `remove_char` may be called (its `requires` holds).
pub proof fn lemma_add_then_remove_char(s0: AuthState, s1: AuthState, s2: AuthState, c: char)
    requires
        is_byte_boundary(s0.token_input@, s0.cursor_pos as int),
        char_added(s0, s1, c),
        char_removed(s1, s2),
    ensures
        s1.cursor_pos > 0 && is_byte_boundary(s1.token_input@, s1.cursor_pos - 1)
            && s1.cursor_pos - 1 < utf8_len(s1.token_input@),
        s2.token_input@ == s0.token_input@,
        s2.cursor_pos == s0.cursor_pos,
        s2.error == s0.error,
        s2.loading == s0.loading,
{
    lemma_insert_then_remove(s0.token_input@, s0.cursor_pos as int, c);
}

/// Status-bar hints for the token form.
pub fn get_auth_hints() -> (s: &'static str)
    ensures
        s@ == "Enter: Connect | Esc: Cancel"@,
{
    "Enter: Connect | Esc: Cancel"
}

} // verus!
