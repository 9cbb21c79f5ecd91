//! ClickDown: the verified core of a terminal ClickUp client.
pub mod text;
pub mod screen_id;
pub mod api;
pub mod sorting;
pub mod query;
pub mod models;
pub mod tui;
pub mod cli;
pub mod paths;
pub mod config;
pub mod commands;
pub mod cache;
