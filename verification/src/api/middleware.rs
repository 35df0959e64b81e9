//! Framework-agnostic request middleware.

pub mod auth;
pub mod cors;
pub mod logging;
