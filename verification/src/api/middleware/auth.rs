//! Authentication middleware: bearer-token extraction and the answer to a
//! failed session check.

use vstd::prelude::*;
use crate::api::error::ApiError;
use crate::auth::error::AuthError;
use crate::base::ids::UserId;
use crate::text::{has_prefix, is_blank, strip_prefix, trim, trimmed};

verus! {

/// The token of an `Authorization` header of the form `Bearer <token>`:
/// the rest after the prefix, trimmed, unless that is empty.
pub open spec fn bearer_token_of(header: Seq<char>) -> Option<Seq<char>> {
    if has_prefix(header, "Bearer "@) {
        let t = trimmed(header.subrange(7, header.len() as int));
        if t.len() == 0 {
            None
        } else {
            Some(t)
        }
    } else {
        None
    }
}

/// The outcome of authenticating a request.
#[derive(Debug, Clone)]
pub struct AuthContext {
    /// The authenticated user.
    pub user_id: UserId,
    /// The session token that was validated.
    pub session_token: String,
}

/// Extract a bearer token from an `Authorization` header value. `None` if
/// the header is malformed, uses another scheme or carries no token.
pub fn extract_bearer_token(auth_header: &str) -> (r: Option<&str>)
    ensures
        match r {
            Some(t) => bearer_token_of(auth_header@) == Some(t@),
            None => bearer_token_of(auth_header@) is None,
        },
{
    proof {
        reveal_strlit("Bearer ");
    }
    match strip_prefix(auth_header, "Bearer ") {
        None => None,
        Some(stripped) => {
            proof {
                assert(stripped@ =~= auth_header@.subrange(7, auth_header@.len() as int));
            }
            let token = trim(stripped);
            if token.unicode_len() == 0 {
                None
            } else {
                Some(token)
            }
        },
    }
}

/// Whether a session check failure means the caller is not authenticated
/// (as opposed to an internal failure).
pub open spec fn is_auth_failure(e: AuthError) -> bool {
    ||| e is InvalidCredentials
    ||| e is SessionExpired
    ||| e is SessionInvalid
    ||| e is Unauthorized
    ||| e is UserNotFound
}

/// The answer to a request whose token was empty: it is not authenticated.
pub fn missing_token_error() -> (r: ApiError)
    ensures
        r matches ApiError::Unauthorized(m) && m@ == "missing session token"@,
{
    ApiError::Unauthorized(String::from_str("missing session token"))
}

/// The answer to a failed session check: authentication failures become
/// `Unauthorized("invalid or expired session")`, anything else an internal
/// error carrying the failure's message.
pub fn session_check_error(e: &AuthError) -> (r: ApiError)
    ensures
        is_auth_failure(*e) ==> (r matches ApiError::Unauthorized(m) && m@
            == "invalid or expired session"@),
        !is_auth_failure(*e) ==> (r matches ApiError::Internal(m) && m@ == e.message_of()),
{
    match e {
        AuthError::InvalidCredentials | AuthError::SessionExpired | AuthError::SessionInvalid
        | AuthError::Unauthorized | AuthError::UserNotFound => {
            ApiError::Unauthorized(String::from_str("invalid or expired session"))
        },
        _ => ApiError::Internal(e.to_message()),
    }
}

/// The context of an authenticated request.
pub fn auth_context(user_id: UserId, token: &str) -> (r: AuthContext)
    ensures
        r.user_id == user_id,
        r.session_token@ == token@,
{
    AuthContext { user_id, session_token: String::from_str(token) }
}

} // verus!
