//! API error types and their canonical error responses.

use vstd::prelude::*;
use crate::base::error::{build_cortex_error, canonical_error, CortexError, ErrorCode};

verus! {

/// Errors that can occur at the API layer.
#[derive(Debug)]
pub enum ApiError {
    /// Authentication required.
    Unauthorized(String),
    /// Permission denied.
    Forbidden(String),
    /// Resource not found.
    NotFound(String),
    /// Invalid request.
    BadRequest(String),
    /// Internal server error.
    Internal(String),
}

impl ApiError {
    /// The error code each variant is answered with.
    pub open spec fn code_of(&self) -> ErrorCode {
        match self {
            ApiError::Unauthorized(_) => ErrorCode::Auth001,
            ApiError::Forbidden(_) => ErrorCode::Auth002,
            ApiError::NotFound(_) => ErrorCode::Nf001,
            ApiError::BadRequest(_) => ErrorCode::Val001,
            ApiError::Internal(_) => ErrorCode::Perm001,
        }
    }

    /// The text the error carries.
    pub open spec fn detail(&self) -> Seq<char> {
        match self {
            ApiError::Unauthorized(m) => m@,
            ApiError::Forbidden(m) => m@,
            ApiError::NotFound(m) => m@,
            ApiError::BadRequest(m) => m@,
            ApiError::Internal(m) => m@,
        }
    }

    /// The human-readable message of each variant.
    pub open spec fn message_of(&self) -> Seq<char> {
        match self {
            ApiError::Unauthorized(m) => "unauthorized: "@ + m@,
            ApiError::Forbidden(m) => "forbidden: "@ + m@,
            ApiError::NotFound(m) => "not found: "@ + m@,
            ApiError::BadRequest(m) => "bad request: "@ + m@,
            ApiError::Internal(m) => "internal error: "@ + m@,
        }
    }

    /// The canonical error response for this error: its code, the code's
    /// category and retryability, and the carried text as the message.
    pub fn to_cortex_error(&self) -> (r: CortexError)
        ensures
            canonical_error(self.code_of(), self.detail(), r),
    {
        match self {
            ApiError::Unauthorized(m) => build_cortex_error(ErrorCode::Auth001, m.clone()),
            ApiError::Forbidden(m) => build_cortex_error(ErrorCode::Auth002, m.clone()),
            ApiError::NotFound(m) => build_cortex_error(ErrorCode::Nf001, m.clone()),
            ApiError::BadRequest(m) => build_cortex_error(ErrorCode::Val001, m.clone()),
            ApiError::Internal(m) => build_cortex_error(ErrorCode::Perm001, m.clone()),
        }
    }

    /// The human-readable message of the error.
    pub fn to_message(&self) -> (r: String)
        ensures
            r@ == self.message_of(),
    {
        match self {
            ApiError::Unauthorized(m) => String::from_str("unauthorized: ").concat(m.as_str()),
            ApiError::Forbidden(m) => String::from_str("forbidden: ").concat(m.as_str()),
            ApiError::NotFound(m) => String::from_str("not found: ").concat(m.as_str()),
            ApiError::BadRequest(m) => String::from_str("bad request: ").concat(m.as_str()),
            ApiError::Internal(m) => String::from_str("internal error: ").concat(m.as_str()),
        }
    }
}

/// An unauthorized request and a forbidden one are told apart by their
/// codes and statuses: the first is answered 401, the second 403.
pub proof fn lemma_unauthorized_differs_from_forbidden(a: ApiError, b: ApiError)
    requires
        a is Unauthorized,
        b is Forbidden,
    ensures
        a.code_of().status_of() == 401,
        b.code_of().status_of() == 403,
        a.code_of() != b.code_of(),
{
}

} // verus!
