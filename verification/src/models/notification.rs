//! Inbox notifications.
use vstd::prelude::*;

verus! {

/// A ClickUp notification.
#[derive(Debug, Clone, PartialEq)]
pub struct Notification {
    pub id: String,
    pub workspace_id: String,
    pub title: String,
    pub description: String,
    /// Creation time, in milliseconds since the epoch.
    pub created_at: Option<i64>,
    /// Time it was read, in milliseconds since the epoch.
    pub read_at: Option<i64>,
}

/// The notifications of a workspace.
#[derive(Debug, Clone)]
pub struct NotificationsResponse {
    pub notifications: Vec<Notification>,
}

} // verus!
