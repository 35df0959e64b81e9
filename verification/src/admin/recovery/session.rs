//! Session recovery decisions: whether the last session ended cleanly, and
//! the state written when marking a clean shutdown.

use vstd::prelude::*;
use crate::admin::error::AdminError;
use crate::admin::types::SessionState;
use crate::base::time::{is_instant_text, now_rfc3339};

verus! {

/// Whether the previous session ended cleanly, given the outcome of
/// loading the saved state: a load error is passed on, and no saved state
/// counts as clean.
pub open spec fn clean_shutdown_value(loaded: Result<Option<SessionState>, AdminError>) -> Result<bool, AdminError> {
    match loaded {
        Ok(Some(s)) => Ok(s.clean_shutdown),
        Ok(None) => Ok(true),
        Err(e) => Err(e),
    }
}

/// `r` is the state to save when marking a clean shutdown at time `now`,
/// given the outcome of loading the saved state: a saved state is kept with
/// the clean flag set and the time replaced; no saved state means nothing
/// is saved; an unreadable state is replaced by a fresh, empty one.
pub open spec fn marks_clean(
    loaded: Result<Option<SessionState>, AdminError>,
    now: Seq<char>,
    r: Option<SessionState>,
) -> bool {
    match loaded {
        Ok(Some(s)) => r matches Some(t) && t.version == s.version && t.clean_shutdown
            && t.saved_at@ == now && t.apps@ == s.apps@,
        Ok(None) => r is None,
        Err(_) => r matches Some(t) && t.version == 1 && t.clean_shutdown && t.saved_at@ == now
            && t.apps@.len() == 0,
    }
}

/// Whether the previous session ended cleanly.
pub fn was_clean_shutdown(loaded: Result<Option<SessionState>, AdminError>) -> (r: Result<
    bool,
    AdminError,
>)
    ensures
        r == clean_shutdown_value(loaded),
{
    match loaded {
        Ok(Some(s)) => Ok(s.clean_shutdown),
        Ok(None) => Ok(true),
        Err(e) => Err(e),
    }
}

/// The state to save when marking a clean shutdown at time `now`; `None`
/// when there is nothing to save.
pub fn clean_shutdown_state_at(
    loaded: Result<Option<SessionState>, AdminError>,
    now: String,
) -> (r: Option<SessionState>)
    ensures
        marks_clean(loaded, now@, r),
{
    match loaded {
        Ok(Some(s)) => Some(
            SessionState { version: s.version, clean_shutdown: true, saved_at: now, apps: s.apps },
        ),
        Ok(None) => None,
        Err(_) => Some(
            SessionState { version: 1, clean_shutdown: true, saved_at: now, apps: Vec::new() },
        ),
    }
}

/// The state to save when marking a clean shutdown now.
pub fn clean_shutdown_state(loaded: Result<Option<SessionState>, AdminError>) -> (r: Option<
    SessionState,
>)
    ensures
        exists|now: Seq<char>| is_instant_text(now) && #[trigger] marks_clean(loaded, now, r),
{
    let now = now_rfc3339();
    let ghost t = now@;
    let r = clean_shutdown_state_at(loaded, now);
    assert(marks_clean(loaded, t, r));
    r
}

/// After a clean shutdown has been marked, the stored state reads as clean,
/// whatever the load gave: the saved state (or its absence) then says the
/// session ended cleanly.
pub proof fn lemma_marked_session_reads_clean(
    loaded: Result<Option<SessionState>, AdminError>,
    now: Seq<char>,
    r: Option<SessionState>,
)
    requires
        marks_clean(loaded, now, r),
    ensures
        clean_shutdown_value(Ok(r)) == Ok::<bool, AdminError>(true),
{
}

} // verus!
