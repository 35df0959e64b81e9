//! The decisions of the authentication flows. The service that runs the
//! SQL queries hands each step the rows it read and stores what the step
//! returns.

use vstd::prelude::*;
use crate::auth::error::AuthError;
use crate::auth::password::{
    dollar_free, encode_stored_hash, generate_salt, hash_password, password_matches,
    salted_hash, stored_form, verify_password, lemma_stored_hash_verifies,
};
use crate::auth::types::{Session, UserProfile};
use crate::base::ids::{SessionId, SessionToken, UserId, parse_uuid, new_uuid_v7, uuid_text, is_hyphenated_uuid, uuid_parse_result, uuid_hyphenated, lemma_uuid_hyphenated_shape, lemma_uuid_hyphenated_injective};
use crate::base::time::{
    format_rfc3339, now_instant, parse_rfc3339, rfc3339_outcome, rfc3339_text_of,
    MAX_TIMESTAMP_SECS, MIN_TIMESTAMP_SECS, RFC3339_MAX_SECS, RFC3339_MIN_SECS,
};

verus! {

/// Minimum password length, in characters.
pub const MIN_PASSWORD_LENGTH: usize = 8;

/// `Internal` error whose message is `prefix` followed by `detail`.
pub open spec fn is_internal_with(e: AuthError, prefix: Seq<char>, detail: Seq<char>) -> bool {
    e matches AuthError::Internal(m) && m@ == prefix + detail
}

fn internal(prefix: &str, detail: String) -> (r: AuthError)
    ensures
        is_internal_with(r, prefix@, detail@),
{
    AuthError::Internal(String::from_str(prefix).concat(detail.as_str()))
}

/// A stored id in the lower-case hyphenated shape parses, to the value
/// whose hyphenated text it is.
pub open spec fn stored_id_parses(text: Seq<char>) -> bool {
    is_hyphenated_uuid(text) ==> uuid_parse_result(text) is Ok && uuid_hyphenated(uuid_parse_result(text)->Ok_0)
        == text
}

/// The login check once the `(user_id, password_hash)` row for the username
/// has been read: no row means invalid credentials; an unparsable id is an
/// internal error; otherwise the password decides.
pub fn authenticate(row: Option<(String, String)>, password: &str) -> (r: Result<UserId, AuthError>)
    ensures
        row is None ==> r matches Err(AuthError::InvalidCredentials),
        row matches Some((id, hash)) ==> {
            &&& uuid_parse_result(id@) matches Err(m) ==> r matches Err(e) && is_internal_with(
                e,
                "invalid user_id uuid: "@,
                m,
            )
            &&& uuid_parse_result(id@) matches Ok(v) ==> {
                &&& (r is Ok <==> password_matches(hash@, password@))
                &&& (r is Err ==> r matches Err(AuthError::InvalidCredentials))
                &&& (r matches Ok(u) ==> u == UserId(v))
            }
            &&& stored_id_parses(id@)
        },
{
    match row {
        None => Err(AuthError::InvalidCredentials),
        Some((id, hash)) => {
            let user_id = match parse_uuid(id.as_str()) {
                Ok(u) => UserId(u),
                Err(m) => {
                    return Err(internal("invalid user_id uuid: ", m));
                },
            };
            if !verify_password(hash.as_str(), password) {
                return Err(AuthError::InvalidCredentials);
            }
            Ok(user_id)
        },
    }
}

/// Whether an instant's whole seconds fall in a four-digit year, where its
/// RFC 3339 text reads back as the same instant.
pub open spec fn in_rfc3339_years(secs: int) -> bool {
    RFC3339_MIN_SECS <= secs <= RFC3339_MAX_SECS
}

/// `r` is a session for `user_id` created at the instant `now` that lives
/// `ttl_secs` seconds: its creation time is the text of `now` and its expiry
/// the text of the instant `ttl_secs` seconds later; in four-digit years
/// each text reads back as its instant.
pub open spec fn session_created_at(r: Session, user_id: UserId, ttl_secs: int, now: (int, int)) -> bool {
    &&& r.user_id == user_id
    &&& is_hyphenated_uuid(r.token.0@)
    &&& rfc3339_text_of(now.0, now.1) == Some(r.created_at@)
    &&& rfc3339_text_of(now.0 + ttl_secs, now.1) == Some(r.expires_at@)
    &&& in_rfc3339_years(now.0) ==> rfc3339_outcome(r.created_at@) == Ok::<(int, int), Seq<char>>(now)
    &&& in_rfc3339_years(now.0 + ttl_secs) ==> rfc3339_outcome(r.expires_at@) == Ok::<(int, int), Seq<char>>(
        (now.0 + ttl_secs, now.1),
    )
}

/// A new session for `user_id`, created at the instant `now` (seconds and
/// nanoseconds since the epoch), that lives `ttl_secs` seconds: a fresh
/// session id and token (a hyphenated time-ordered id).
pub fn new_session_at(user_id: UserId, ttl_secs: u64, now: (i64, u32)) -> (r: Session)
    requires
        MIN_TIMESTAMP_SECS <= now.0,
        now.0 + ttl_secs <= MAX_TIMESTAMP_SECS,
        now.1 < 1_000_000_000,
    ensures
        session_created_at(r, user_id, ttl_secs as int, (now.0 as int, now.1 as int)),
{
    let session_id = SessionId(new_uuid_v7());
    let token_id = new_uuid_v7();
    let token = SessionToken(uuid_text(token_id));
    proof {
        lemma_uuid_hyphenated_shape(token_id);
    }
    let expiry: i64 = now.0 + ttl_secs as i64;
    let created_at = match format_rfc3339(now.0, now.1) {
        Some(t) => t,
        None => {
            assert(false);
            String::new()
        },
    };
    let expires_at = match format_rfc3339(expiry, now.1) {
        Some(t) => t,
        None => {
            assert(false);
            String::new()
        },
    };
    Session { session_id, user_id, token, created_at, expires_at }
}

/// Whether a clock reading `(seconds, nanoseconds)` is a representable
/// instant.
pub open spec fn clock_in_range(now: (int, int)) -> bool {
    &&& MIN_TIMESTAMP_SECS <= now.0 <= MAX_TIMESTAMP_SECS
    &&& 0 <= now.1 < 1_000_000_000
}

/// The outcome of starting a session for `user_id` that lives `ttl_secs`
/// seconds at the clock reading `now`: a reading outside the representable
/// instants is refused with `clock out of range`; a lifetime that would end
/// beyond them with `session lifetime out of range`; otherwise a session
/// created at `now`.
pub open spec fn session_outcome(r: Result<Session, AuthError>, user_id: UserId, ttl_secs: int, now: (int, int)) -> bool {
    if !clock_in_range(now) {
        r matches Err(AuthError::Internal(m)) && m@ == "clock out of range"@
    } else if ttl_secs > MAX_TIMESTAMP_SECS - now.0 {
        r matches Err(AuthError::Internal(m)) && m@ == "session lifetime out of range"@
    } else {
        r matches Ok(s) && session_created_at(s, user_id, ttl_secs, now)
    }
}

/// A new session for `user_id` that lives `ttl_secs` seconds, started at the
/// clock reading `now` (seconds and nanoseconds since the epoch).
pub fn session_at(user_id: UserId, ttl_secs: u64, now: (i64, u32)) -> (r: Result<Session, AuthError>)
    ensures
        session_outcome(r, user_id, ttl_secs as int, (now.0 as int, now.1 as int)),
{
    if now.0 < MIN_TIMESTAMP_SECS || now.0 > MAX_TIMESTAMP_SECS || now.1 >= 1_000_000_000 {
        return Err(AuthError::Internal(String::from_str("clock out of range")));
    }
    let room: u64 = (MAX_TIMESTAMP_SECS - now.0) as u64;
    if ttl_secs > room {
        return Err(AuthError::Internal(String::from_str("session lifetime out of range")));
    }
    Ok(new_session_at(user_id, ttl_secs, now))
}

/// A new session for `user_id` that lives `ttl_secs` seconds, started at
/// the current clock reading: the outcome of `session_at` for some reading,
/// which is a representable instant not before the epoch.
pub fn new_session(user_id: UserId, ttl_secs: u64) -> (r: Result<Session, AuthError>)
    ensures
        exists|now: (int, int)| 0 <= now.0 && clock_in_range(now) && #[trigger] session_outcome(r, user_id, ttl_secs as int, now),
{
    let now = now_instant();
    let r = session_at(user_id, ttl_secs, now);
    let ghost w: (int, int) = (now.0 as int, now.1 as int);
    assert(session_outcome(r, user_id, ttl_secs as int, w));
    r
}

/// A stored session row: session id, user id, creation, expiry and
/// last-activity times, as text.
pub struct SessionRow {
    pub session_id: String,
    pub user_id: String,
    pub created_at: String,
    pub expires_at: String,
    pub last_active_at: String,
}

/// `a` is strictly later than `b`, both given as (seconds, nanoseconds).
pub open spec fn later_than(a: (int, int), b: (int, int)) -> bool {
    a.0 > b.0 || (a.0 == b.0 && a.1 > b.1)
}

/// `r` is the outcome of checking the session row read for `token` at
/// clock time `now`: no row is an invalid session; an unparsable expiry is
/// an internal error; a session whose expiry lies before `now` has expired;
/// ids that do not parse are internal errors; otherwise the session, with
/// the token it was looked up by.
pub open spec fn session_check(token: SessionToken, row: Option<SessionRow>, now: (int, int), r: Result<Session, AuthError>) -> bool {
    &&& row matches Some(rw) ==> stored_id_parses(rw.session_id@) && stored_id_parses(rw.user_id@)
    &&& match row {
        None => r matches Err(AuthError::SessionInvalid),
        Some(row) => match rfc3339_outcome(row.expires_at@) {
            Err(m) => r matches Err(e) && is_internal_with(e, "cannot parse expires_at: "@, m),
            Ok(exp) => if later_than(now, exp) {
                r matches Err(AuthError::SessionExpired)
            } else if uuid_parse_result(row.session_id@) is Err {
                r matches Err(e) && is_internal_with(
                    e,
                    "invalid session_id: "@,
                    uuid_parse_result(row.session_id@)->Err_0,
                )
            } else if uuid_parse_result(row.user_id@) is Err {
                r matches Err(e) && is_internal_with(
                    e,
                    "invalid user_id: "@,
                    uuid_parse_result(row.user_id@)->Err_0,
                )
            } else {
                r matches Ok(s) && s.token == token && s.created_at == row.created_at
                    && s.expires_at == row.expires_at
                    && s.session_id == SessionId(uuid_parse_result(row.session_id@)->Ok_0)
                    && s.user_id == UserId(uuid_parse_result(row.user_id@)->Ok_0)
            },
        },
    }
}

/// A session issued by `new_session_at`, stored as a row with its ids'
/// hyphenated texts and its creation and expiry texts, is accepted by the
/// session check at any time up to its expiry, which gives back the same
/// session; after its expiry it is refused as expired. This holds while the
/// expiry falls in a four-digit year.
pub proof fn lemma_issued_session_validates(
    s: Session,
    user_id: UserId,
    ttl_secs: int,
    now: (int, int),
    row: SessionRow,
    t: (int, int),
    r: Result<Session, AuthError>,
)
    requires
        session_created_at(s, user_id, ttl_secs, now),
        in_rfc3339_years(now.0 + ttl_secs),
        row.session_id@ == uuid_hyphenated(s.session_id.0),
        row.user_id@ == uuid_hyphenated(s.user_id.0),
        row.created_at == s.created_at,
        row.expires_at == s.expires_at,
        session_check(s.token, Some(row), t, r),
    ensures
        !later_than(t, (now.0 + ttl_secs, now.1)) ==> r == Ok::<Session, AuthError>(s),
        later_than(t, (now.0 + ttl_secs, now.1)) ==> r matches Err(AuthError::SessionExpired),
{
    lemma_uuid_hyphenated_shape(s.session_id.0);
    lemma_uuid_hyphenated_shape(s.user_id.0);
    if !later_than(t, (now.0 + ttl_secs, now.1)) {
        lemma_uuid_hyphenated_injective(uuid_parse_result(row.session_id@)->Ok_0, s.session_id.0);
        lemma_uuid_hyphenated_injective(uuid_parse_result(row.user_id@)->Ok_0, s.user_id.0);
    }
}

/// The session check once the row for a token has been read, at clock time
/// `now`: no row is an invalid session; an unparsable expiry is an internal
/// error; a session whose expiry lies before `now` has expired; ids that do
/// not parse are internal errors; otherwise the session, with the token it
/// was looked up by.
pub fn session_from_row(token: SessionToken, row: Option<SessionRow>, now: (i64, u32)) -> (r: Result<Session, AuthError>)
    ensures
        session_check(token, row, (now.0 as int, now.1 as int), r),
{
    let row = match row {
        None => {
            return Err(AuthError::SessionInvalid);
        },
        Some(row) => row,
    };
    let parsed_session_id = parse_uuid(row.session_id.as_str());
    let parsed_user_id = parse_uuid(row.user_id.as_str());
    let expires = match parse_rfc3339(row.expires_at.as_str()) {
        Ok(t) => t,
        Err(m) => {
            return Err(internal("cannot parse expires_at: ", m));
        },
    };
    if now.0 > expires.0 || (now.0 == expires.0 && now.1 > expires.1) {
        return Err(AuthError::SessionExpired);
    }
    let session_id = match parsed_session_id {
        Ok(u) => SessionId(u),
        Err(m) => {
            return Err(internal("invalid session_id: ", m));
        },
    };
    let user_id = match parsed_user_id {
        Ok(u) => UserId(u),
        Err(m) => {
            return Err(internal("invalid user_id: ", m));
        },
    };
    Ok(Session { session_id, user_id, token, created_at: row.created_at, expires_at: row.expires_at })
}

/// The session check at the present time.
pub fn check_session_row(token: SessionToken, row: Option<SessionRow>) -> (r: Result<Session, AuthError>)
    ensures
        exists|now: (int, int)| 0 <= now.0 && clock_in_range(now) && #[trigger] session_check(token, row, now, r),
{
    let now = now_instant();
    let r = session_from_row(token, row, now);
    assert(session_check(token, row, (now.0 as int, now.1 as int), r));
    r
}

/// The stored form of a new password: a fresh `'$'`-free salt, `'$'`, and
/// the salted hash of the password.
pub fn new_password_record(password: &str) -> (r: String)
    ensures
        exists|salt: Seq<char>| dollar_free(salt) && r@ == stored_form(salt, salted_hash(salt, password@)),
        password_matches(r@, password@),
{
    let salt = generate_salt();
    let hash = hash_password(salt.as_str(), password);
    let r = encode_stored_hash(salt.as_str(), hash.as_str());
    proof {
        lemma_stored_hash_verifies(salt@, password@);
    }
    r
}

/// Whether a new password meets the length requirement (in characters).
pub fn check_new_password(new: &str) -> (r: Result<(), AuthError>)
    ensures
        r is Ok <==> new@.len() >= 8,
        r matches Err(e) ==> e matches AuthError::PasswordTooWeak { min_length } && min_length == 8,
{
    if new.unicode_len() < MIN_PASSWORD_LENGTH {
        return Err(AuthError::PasswordTooWeak { min_length: MIN_PASSWORD_LENGTH });
    }
    Ok(())
}

/// The password-change decision once the user's stored hash has been read:
/// a too-short new password is refused first, then a missing user, then a
/// wrong current password; otherwise the new stored hash.
pub fn plan_password_change(new: &str, stored: Option<String>, current: &str) -> (r: Result<String, AuthError>)
    ensures
        new@.len() < 8 ==> (r matches Err(AuthError::PasswordTooWeak { min_length }) && min_length == 8),
        new@.len() >= 8 && stored is None ==> r matches Err(AuthError::UserNotFound),
        new@.len() >= 8 && stored is Some ==> {
            &&& (r is Ok <==> password_matches(stored->0@, current@))
            &&& (r is Err ==> r matches Err(AuthError::InvalidCredentials))
        },
        r matches Ok(s) ==> password_matches(s@, new@),
{
    check_new_password(new)?;
    let stored = match stored {
        Some(h) => h,
        None => {
            return Err(AuthError::UserNotFound);
        },
    };
    if !verify_password(stored.as_str(), current) {
        return Err(AuthError::InvalidCredentials);
    }
    Ok(new_password_record(new))
}

/// The profile of `user_id` from its `(username, display_name, created_at)`
/// row; no row means the user does not exist.
pub fn profile_from_row(user_id: UserId, row: Option<(String, String, String)>) -> (r: Result<UserProfile, AuthError>)
    ensures
        row is None ==> r matches Err(AuthError::UserNotFound),
        row matches Some((u, d, c)) ==> r matches Ok(p) && p.user_id == user_id && p.username == u
            && p.display_name == d && p.created_at == c,
{
    match row {
        None => Err(AuthError::UserNotFound),
        Some((username, display_name, created_at)) => Ok(UserProfile { user_id, username, display_name, created_at }),
    }
}

} // verus!
