//! Authentication: errors, request validation, password hashing and the
//! decisions of the login, session and password-change flows.

pub mod error;
pub mod password;
pub mod types;
pub mod flows;
