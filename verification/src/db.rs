//! Database error types and migration planning.

pub mod error;
pub mod migration;
