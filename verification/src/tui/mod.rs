//! Terminal user interface state.
pub mod widgets;
pub mod layout;
pub mod helpers;
pub mod app;
pub mod input;
pub mod comment_panel;
pub mod forms;
pub mod keys;
pub mod task_store;
