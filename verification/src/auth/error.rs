//! Authentication error types.

use vstd::prelude::*;
use crate::text::{decimal, decimal_text};

verus! {

/// Errors that can occur during authentication operations.
#[derive(Debug)]
pub enum AuthError {
    /// The provided credentials are invalid.
    InvalidCredentials,
    /// The session has expired and is no longer valid.
    SessionExpired,
    /// The session token is invalid or does not exist.
    SessionInvalid,
    /// The user is not authorized to perform this action.
    Unauthorized,
    /// The new password does not meet strength requirements.
    PasswordTooWeak {
        /// Minimum password length required.
        min_length: usize,
    },
    /// The requested user was not found.
    UserNotFound,
    /// An unexpected internal error occurred.
    Internal(String),
}

impl AuthError {
    /// The human-readable message of each variant.
    pub open spec fn message_of(&self) -> Seq<char> {
        match self {
            AuthError::InvalidCredentials => "invalid credentials"@,
            AuthError::SessionExpired => "session expired"@,
            AuthError::SessionInvalid => "session invalid"@,
            AuthError::Unauthorized => "unauthorized"@,
            AuthError::PasswordTooWeak { min_length } => "password too weak: must be at least "@
                + decimal_text(*min_length as nat) + " characters"@,
            AuthError::UserNotFound => "user not found"@,
            AuthError::Internal(m) => "internal error: "@ + m@,
        }
    }

    /// The human-readable message of the error.
    pub fn to_message(&self) -> (r: String)
        ensures
            r@ == self.message_of(),
    {
        match self {
            AuthError::InvalidCredentials => String::from_str("invalid credentials"),
            AuthError::SessionExpired => String::from_str("session expired"),
            AuthError::SessionInvalid => String::from_str("session invalid"),
            AuthError::Unauthorized => String::from_str("unauthorized"),
            AuthError::PasswordTooWeak { min_length } => {
                let mut s = String::from_str("password too weak: must be at least ");
                s.append(decimal(*min_length as u64).as_str());
                s.append(" characters");
                s
            },
            AuthError::UserNotFound => String::from_str("user not found"),
            AuthError::Internal(m) => String::from_str("internal error: ").concat(m.as_str()),
        }
    }
}

} // verus!
