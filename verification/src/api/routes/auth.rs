//! Authentication route decisions: the session cookie, how authentication
//! failures are answered, and the response bodies.

use vstd::prelude::*;
use crate::api::error::ApiError;
use crate::auth::error::AuthError;
use crate::auth::types::{Session, UserProfile};
use crate::base::ids::{uuid_hyphenated, uuid_text};
use crate::text::{decimal, decimal_text};

verus! {

/// The cookie name used for the session token.
pub const SESSION_COOKIE_NAME: &'static str = "cortex_session";

/// The `Set-Cookie` value for a session token.
pub open spec fn session_cookie_text(token: Seq<char>) -> Seq<char> {
    "cortex_session="@ + token + "; HttpOnly; Secure; SameSite=Strict; Path=/"@
}

/// Build the `Set-Cookie` header value for the session token.
pub fn session_cookie_value(token: &str) -> (r: String)
    ensures
        r@ == session_cookie_text(token@),
{
    let mut s = String::from_str("cortex_session=");
    s.append(token);
    s.append("; HttpOnly; Secure; SameSite=Strict; Path=/");
    s
}

/// The response body of a successful login.
#[derive(Debug, Clone)]
pub struct LoginResponse {
    pub session_id: String,
    pub user_id: String,
    pub expires_at: String,
}

/// The response body of profile queries.
#[derive(Debug, Clone)]
pub struct ProfileResponse {
    pub user_id: String,
    pub username: String,
    pub display_name: String,
    pub created_at: String,
}

/// The bad-request text for a password shorter than `min_length`.
pub open spec fn weak_password_text(min_length: nat) -> Seq<char> {
    "password must be at least "@ + decimal_text(min_length) + " characters"@
}

fn weak_password_error(min_length: usize) -> (r: ApiError)
    ensures
        r matches ApiError::BadRequest(m) && m@ == weak_password_text(min_length as nat),
{
    let mut s = String::from_str("password must be at least ");
    s.append(decimal(min_length as u64).as_str());
    s.append(" characters");
    ApiError::BadRequest(s)
}

/// The answer to a failed login: wrong credentials are unauthorized, a
/// weak password a bad request, anything else an internal error carrying
/// the failure's message.
pub fn login_error(e: &AuthError) -> (r: ApiError)
    ensures
        e is InvalidCredentials ==> (r matches ApiError::Unauthorized(m) && m@ == "invalid credentials"@),
        e matches AuthError::PasswordTooWeak { min_length } ==> (r matches ApiError::BadRequest(m) && m@
            == weak_password_text(min_length as nat)),
        !(e is InvalidCredentials || e is PasswordTooWeak) ==> (r matches ApiError::Internal(m) && m@
            == e.message_of()),
{
    match e {
        AuthError::InvalidCredentials => ApiError::Unauthorized(String::from_str("invalid credentials")),
        AuthError::PasswordTooWeak { min_length } => weak_password_error(*min_length),
        _ => ApiError::Internal(e.to_message()),
    }
}

/// The answer to a failed password change: a wrong current password is
/// unauthorized, a weak new password a bad request, anything else an
/// internal error carrying the failure's message.
pub fn change_password_error(e: &AuthError) -> (r: ApiError)
    ensures
        e is InvalidCredentials ==> (r matches ApiError::Unauthorized(m) && m@
            == "current password is incorrect"@),
        e matches AuthError::PasswordTooWeak { min_length } ==> (r matches ApiError::BadRequest(m) && m@
            == weak_password_text(min_length as nat)),
        !(e is InvalidCredentials || e is PasswordTooWeak) ==> (r matches ApiError::Internal(m) && m@
            == e.message_of()),
{
    match e {
        AuthError::InvalidCredentials => ApiError::Unauthorized(
            String::from_str("current password is incorrect"),
        ),
        AuthError::PasswordTooWeak { min_length } => weak_password_error(*min_length),
        _ => ApiError::Internal(e.to_message()),
    }
}

/// The answer to a failed profile lookup: an unknown user is not found,
/// anything else an internal error carrying the failure's message.
pub fn profile_error(e: &AuthError) -> (r: ApiError)
    ensures
        e is UserNotFound ==> (r matches ApiError::NotFound(m) && m@ == "user not found"@),
        !(e is UserNotFound) ==> (r matches ApiError::Internal(m) && m@ == e.message_of()),
{
    match e {
        AuthError::UserNotFound => ApiError::NotFound(String::from_str("user not found")),
        _ => ApiError::Internal(e.to_message()),
    }
}

/// The answer to a failed session validation: an invalid or expired
/// session is unauthorized, anything else an internal error carrying the
/// failure's message.
pub fn validate_session_error(e: &AuthError) -> (r: ApiError)
    ensures
        (e is SessionInvalid || e is SessionExpired) ==> (r matches ApiError::Unauthorized(m) && m@
            == "invalid or expired session"@),
        !(e is SessionInvalid || e is SessionExpired) ==> (r matches ApiError::Internal(m) && m@
            == e.message_of()),
{
    match e {
        AuthError::SessionInvalid | AuthError::SessionExpired => ApiError::Unauthorized(
            String::from_str("invalid or expired session"),
        ),
        _ => ApiError::Internal(e.to_message()),
    }
}

/// The answer to a failure that has no specific answer (logout, profile
/// update): an internal error carrying the failure's message.
pub fn internal_error(e: &AuthError) -> (r: ApiError)
    ensures
        r matches ApiError::Internal(m) && m@ == e.message_of(),
{
    ApiError::Internal(e.to_message())
}

/// The login response body for a new session: the ids in hyphenated form
/// and the expiry time.
pub fn login_response(session: Session) -> (r: LoginResponse)
    ensures
        r.session_id@ == uuid_hyphenated(session.session_id.0),
        r.user_id@ == uuid_hyphenated(session.user_id.0),
        r.expires_at == session.expires_at,
{
    LoginResponse {
        session_id: uuid_text(session.session_id.0),
        user_id: uuid_text(session.user_id.0),
        expires_at: session.expires_at,
    }
}

/// The profile response body for a profile: the user id in hyphenated
/// form and the other fields as they are.
pub fn profile_response(profile: UserProfile) -> (r: ProfileResponse)
    ensures
        r.user_id@ == uuid_hyphenated(profile.user_id.0),
        r.username == profile.username,
        r.display_name == profile.display_name,
        r.created_at == profile.created_at,
{
    ProfileResponse {
        user_id: uuid_text(profile.user_id.0),
        username: profile.username,
        display_name: profile.display_name,
        created_at: profile.created_at,
    }
}

} // verus!
