//! Request logging: the record kept while a request is processed, and the
//! summary logged when it completes.

use vstd::prelude::*;

verus! {

/// Monotonic clock readings are carried through as opaque values.
#[verifier::external_type_specification]
#[verifier::external_body]
pub struct ExInstant(std::time::Instant);

/// `Instant` is `Copy` and its `Clone` is derived: the clone is the same
/// reading.
pub assume_specification[ <std::time::Instant as Clone>::clone ](i: &std::time::Instant) -> (r: std::time::Instant)
    ensures
        r == *i,
;

/// Calls `std::time::Instant::now`; the reading depends on the clock, so
/// nothing is stated of it.
#[verifier::external_body]
fn instant_now() -> (r: std::time::Instant) {
    std::time::Instant::now()
}

/// Calls `std::time::Instant::elapsed` and gives the whole milliseconds,
/// narrowed to 64 bits; the value depends on the clock, so nothing is
/// stated of it.
#[verifier::external_body]
fn millis_since(start: &std::time::Instant) -> (r: u64) {
    start.elapsed().as_millis() as u64
}

/// A logged HTTP request with timing and metadata.
#[derive(Debug, Clone)]
pub struct RequestLog {
    /// HTTP method (GET, POST, etc.).
    pub method: String,
    /// Request path.
    pub path: String,
    /// Authenticated user id, once known.
    pub user_id: Option<String>,
    /// Request id for tracing.
    pub request_id: String,
    /// When processing started.
    pub start: std::time::Instant,
}

/// The summary of a completed request, as it is logged.
#[derive(Debug, Clone)]
pub struct CompletedRequest {
    pub method: String,
    pub path: String,
    pub status: u16,
    pub elapsed_ms: u64,
    pub request_id: String,
    /// The user id, or `-` when the request was not authenticated.
    pub user_id: String,
}

impl RequestLog {
    /// A new log entry at the start of request processing, with no user.
    pub fn new(method: &str, path: &str, request_id: &str) -> (r: Self)
        ensures
            r.method@ == method@,
            r.path@ == path@,
            r.request_id@ == request_id@,
            r.user_id is None,
    {
        RequestLog {
            method: String::from_str(method),
            path: String::from_str(path),
            user_id: None,
            request_id: String::from_str(request_id),
            start: instant_now(),
        }
    }

    /// Attach the authenticated user id to this entry.
    pub fn with_user_id(&mut self, user_id: String)
        ensures
            final(self).user_id == Some(user_id),
            final(self).method == old(self).method,
            final(self).path == old(self).path,
            final(self).request_id == old(self).request_id,
            final(self).start == old(self).start,
    {
        self.user_id = Some(user_id);
    }

    /// The summary of the request's completion with `status`, timed from
    /// the start of processing.
    pub fn finish(&self, status: u16) -> (r: CompletedRequest)
        ensures
            r.method@ == self.method@,
            r.path@ == self.path@,
            r.status == status,
            r.request_id@ == self.request_id@,
            r.user_id@ == match self.user_id {
                Some(u) => u@,
                None => "-"@,
            },
    {
        let elapsed_ms = millis_since(&self.start);
        let user_id = match &self.user_id {
            Some(u) => u.clone(),
            None => String::from_str("-"),
        };
        CompletedRequest {
            method: self.method.clone(),
            path: self.path.clone(),
            status,
            elapsed_ms,
            request_id: self.request_id.clone(),
            user_id,
        }
    }
}

} // verus!
