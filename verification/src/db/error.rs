//! Database error types.

use vstd::prelude::*;

verus! {

/// Errors that can occur during database operations.
#[derive(Debug)]
pub enum DbError {
    /// A query returned no results when at least one was expected.
    NotFound(String),
    /// A database migration failed.
    Migration(String),
    /// A connection pool error.
    Connection(String),
    /// A query execution error.
    Query(String),
    /// An unexpected internal error.
    Internal(String),
}

impl DbError {
    /// The human-readable message of each variant.
    pub open spec fn message_of(&self) -> Seq<char> {
        match self {
            DbError::NotFound(m) => "not found: "@ + m@,
            DbError::Migration(m) => "migration error: "@ + m@,
            DbError::Connection(m) => "connection error: "@ + m@,
            DbError::Query(m) => "query error: "@ + m@,
            DbError::Internal(m) => "internal error: "@ + m@,
        }
    }

    /// The human-readable message of the error.
    pub fn to_message(&self) -> (r: String)
        ensures
            r@ == self.message_of(),
    {
        match self {
            DbError::NotFound(m) => String::from_str("not found: ").concat(m.as_str()),
            DbError::Migration(m) => String::from_str("migration error: ").concat(m.as_str()),
            DbError::Connection(m) => String::from_str("connection error: ").concat(m.as_str()),
            DbError::Query(m) => String::from_str("query error: ").concat(m.as_str()),
            DbError::Internal(m) => String::from_str("internal error: ").concat(m.as_str()),
        }
    }
}

} // verus!
