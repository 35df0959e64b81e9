//! Foundation: the shared error taxonomy, identifier newtypes and domain types.

pub mod error;
pub mod ids;
pub mod types;
pub mod time;
