//! ClickUp data models.
pub mod task;
pub mod task_copy;
pub mod user;
pub mod inbox_activity;
pub mod assigned_item;
pub mod comment;
pub mod workspace;
pub mod notification;
pub mod document;
pub mod session;
