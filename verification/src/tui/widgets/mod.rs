//! Widget states.
pub mod task_list;
pub mod auth;
pub mod dialog;
pub mod document;
pub mod help;
pub mod sidebar;
pub mod comments;
pub mod task_detail;
pub mod inbox_view;
pub mod assigned_view;
pub mod status_picker;
