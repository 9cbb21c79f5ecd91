//! Where the API token is stored.
use vstd::prelude::*;

use crate::paths::{join_path, joined_path};
use crate::text::{owned, str_trim, trimmed};

verus! {

/// Knows the configuration directory that holds the token file.
#[derive(Debug, Clone)]
pub struct AuthManager {
    config_dir: String,
}

/// The token as it is authenticated with.
#[derive(Debug, Clone)]
pub struct AuthToken {
    pub token: String,
}

impl AuthManager {
    /// The directory that holds the token.
    pub closed spec fn config_dir_spec(&self) -> Seq<char> {
        self.config_dir@
    }

    /// A manager for the given configuration directory.
    pub fn with_config_dir(config_dir: String) -> (m: Self)
        ensures
            m.config_dir_spec() == config_dir@,
    {
        AuthManager { config_dir }
    }

    /// The configuration directory.
    pub fn config_dir(&self) -> (s: &str)
        ensures
            s@ == self.config_dir_spec(),
    {
        self.config_dir.as_str()
    }

    /// The path of the token file: `token` in the configuration directory.
    pub fn token_path(&self) -> (p: String)
        ensures
            p@ == joined_path(self.config_dir_spec(), "token"@),
    {
        join_path(self.config_dir.as_str(), "token")
    }
}

/// The user's configuration directory as `dirs::config_dir` finds it (from
/// the environment or the platform's settings), as text, or `None` where it
/// finds none. Nothing is stated of the directory: it depends on the machine
/// and its environment.
#[verifier::external_body]
fn user_config_dir() -> (d: Option<String>) {
    match dirs::config_dir() {
        Some(p) => Some(p.to_string_lossy().into_owned()),
        None => None,
    }
}

/// The directory that holds the token, given the user's configuration
/// directory: `clickdown` in it, or an empty directory (the working
/// directory) where there is none.
pub fn token_dir_for(base: Option<String>) -> (d: String)
    ensures
        d@ == match base {
            Some(b) => joined_path(b@, "clickdown"@),
            None => Seq::<char>::empty(),
        },
{
    match base {
        Some(b) => join_path(b.as_str(), "clickdown"),
        None => {
            let d = owned("");
            proof {
                reveal_strlit("");
            }
            d
        },
    }
}

impl Default for AuthManager {
    /// A manager for `clickdown` in the user's configuration directory, or,
    /// where the machine has none, for an empty directory (the token file is
    /// then looked for in the working directory).
    fn default() -> (m: Self)
        ensures
            m.config_dir_spec().len() == 0 || exists|b: Seq<char>|
                m.config_dir_spec() == #[trigger] joined_path(b, "clickdown"@),
    {
        let base = user_config_dir();
        let ghost b = match &base {
            Some(s) => s@,
            None => Seq::<char>::empty(),
        };
        let is_some = base.is_some();
        let d = token_dir_for(base);
        proof {
            if is_some {
                assert(d@ == joined_path(b, "clickdown"@));
            }
        }
        AuthManager { config_dir: d }
    }
}

/// The token held in the contents of a token file: surrounding whitespace
/// is dropped.
pub fn stored_token(contents: &str) -> (t: String)
    ensures
        t@ == trimmed(contents@),
{
    owned(str_trim(contents))
}

} // verus!
