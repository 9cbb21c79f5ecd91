//! Locations of the configuration and the cache.
use vstd::prelude::*;

use crate::paths::{join_path, joined_path};

verus! {

/// Knows where the cache lives.
#[derive(Debug, Clone, Copy, PartialEq, Eq, Structural)]
pub struct ConfigManager;

impl Default for ConfigManager {
    fn default() -> (c: Self) {
        ConfigManager
    }
}

impl ConfigManager {
    /// The cache directory of the application under the user's cache
    /// directory.
    pub fn cache_dir_in(user_cache_dir: &str) -> (p: String)
        ensures
            p@ == joined_path(user_cache_dir@, "clickdown"@),
    {
        join_path(user_cache_dir, "clickdown")
    }

    /// The cache database in the application's cache directory.
    pub fn database_path_in(cache_dir: &str) -> (p: String)
        ensures
            p@ == joined_path(cache_dir@, "cache.db"@),
    {
        join_path(cache_dir, "cache.db")
    }
}

} // verus!
