//! Configuration: built-in defaults, file and environment layering, and
//! validation.

pub mod error;
pub mod types;
