//! Authentication domain types.

use vstd::prelude::*;
use crate::auth::error::AuthError;
use crate::base::ids::{SessionId, SessionToken, Timestamp, UserId};
use crate::text::{all_ws, is_blank};

verus! {

/// Login request payload.
#[derive(Debug, Clone)]
pub struct LoginRequest {
    /// The user's username.
    pub username: String,
    /// The user's plaintext password (never stored).
    pub password: String,
}

impl LoginRequest {
    /// A request is acceptable when neither field trims to nothing.
    pub open spec fn is_well_formed(&self) -> bool {
        !all_ws(self.username@) && !all_ws(self.password@)
    }

    /// Validate the login request fields.
    ///
    /// Returns an error if the username or password is empty or only whitespace.
    pub fn validate(&self) -> (r: Result<(), AuthError>)
        ensures
            r is Ok <==> self.is_well_formed(),
            r matches Err(e) ==> e is InvalidCredentials,
    {
        if is_blank(self.username.as_str()) {
            return Err(AuthError::InvalidCredentials);
        }
        if is_blank(self.password.as_str()) {
            return Err(AuthError::InvalidCredentials);
        }
        Ok(())
    }
}

/// Active user session.
#[derive(Debug, Clone)]
pub struct Session {
    /// Unique session identifier.
    pub session_id: SessionId,
    /// The user this session belongs to.
    pub user_id: UserId,
    /// Opaque session token used for authentication.
    pub token: SessionToken,
    /// When the session was created.
    pub created_at: Timestamp,
    /// When the session expires.
    pub expires_at: Timestamp,
}

/// User profile information.
#[derive(Debug, Clone)]
pub struct UserProfile {
    /// The user's unique ID.
    pub user_id: UserId,
    /// Login username.
    pub username: String,
    /// Display name shown in the UI.
    pub display_name: String,
    /// Account creation timestamp.
    pub created_at: Timestamp,
}

/// Profile update payload.
#[derive(Debug, Clone)]
pub struct ProfileUpdate {
    /// New display name.
    pub display_name: Option<String>,
}

} // verus!
