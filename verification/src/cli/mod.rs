//! Command-line handling.
pub mod args;
