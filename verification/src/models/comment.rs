//! Comments on tasks.
use vstd::prelude::*;

verus! {

/// A user as it appears in comment responses.
#[derive(Debug, Clone, PartialEq)]
pub struct User {
    pub id: i64,
    pub username: String,
    pub color: Option<String>,
    pub email: Option<String>,
    pub profile_picture: Option<String>,
    pub initials: Option<String>,
}

/// A comment or a threaded reply on a task.
#[derive(Debug, Clone, PartialEq)]
pub struct Comment {
    /// Comment id (empty when the API sent none).
    pub id: String,
    /// Full comment text.
    pub text: String,
    /// Preview text from the API.
    pub text_preview: String,
    /// Author.
    pub commenter: Option<User>,
    /// Creation time (Unix milliseconds).
    pub created_at: Option<i64>,
    /// Last update time (Unix milliseconds).
    pub updated_at: Option<i64>,
    /// User the comment is assigned to.
    pub assigned_commenter: Option<User>,
    /// User who made the assignment.
    pub assigned_by: Option<User>,
    /// Resolved flag.
    pub assigned: bool,
    /// Reaction text.
    pub reaction: String,
    /// Parent comment id for replies; `None` for top-level comments.
    pub parent_id: Option<String>,
}

/// Comments of a task.
#[derive(Debug, Clone)]
pub struct CommentsResponse {
    pub comments: Vec<Comment>,
}

/// Body of a comment-creation request.
#[derive(Debug, Clone)]
pub struct CreateCommentRequest {
    pub comment_text: String,
    pub assignee: Option<i64>,
    pub assigned_commenter: Option<i64>,
    pub parent_id: Option<String>,
}

/// Body of a comment-update request.
#[derive(Debug, Clone)]
pub struct UpdateCommentRequest {
    pub comment_text: Option<String>,
    pub assigned: Option<bool>,
    pub assignee: Option<i64>,
    pub assigned_commenter: Option<i64>,
}

} // verus!
