//! Users (assignees, creators, commenters).
use vstd::prelude::*;

verus! {

/// A ClickUp user reference.
#[derive(Debug, Clone, PartialEq)]
pub struct User {
    pub id: i64,
    pub username: String,
    pub color: Option<String>,
    pub email: Option<String>,
    pub profile_picture: Option<String>,
    pub initials: Option<String>,
}

/// Members of a list or task.
#[derive(Debug, Clone, PartialEq)]
pub struct MembersResponse {
    pub members: Vec<User>,
}

} // verus!
