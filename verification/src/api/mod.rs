//! ClickUp REST endpoints and request helpers.
pub mod endpoints;
pub mod auth;
