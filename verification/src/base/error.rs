//! The canonical error taxonomy shared by every service: categories, error
//! codes with their HTTP status and retry policy, and the universal error
//! response envelope.

use vstd::prelude::*;

verus! {

/// Error categories.
#[derive(Debug, Clone, Copy, PartialEq, Eq, Hash, Structural)]
pub enum ErrorCategory {
    Transient,
    Permanent,
    Auth,
    Policy,
    NotFound,
    Conflict,
    RateLimit,
    QuotaExceeded,
    ProviderUnavailable,
    Timeout,
    Validation,
}

/// Canonical error codes.
#[derive(Debug, Clone, Copy, PartialEq, Eq, Hash, Structural)]
pub enum ErrorCode {
    Trans001,
    Perm001,
    Auth001,
    Auth002,
    Pol001,
    Pol002,
    Nf001,
    Nf002,
    Conf001,
    Conf002,
    Rl001,
    Qe001,
    Qe002,
    Pu001,
    Pu002,
    Tm001,
    Tm002,
    Val001,
    Val002,
    Val003,
}

impl ErrorCode {
    /// The category each code belongs to.
    pub open spec fn category_of(self) -> ErrorCategory {
        match self {
            ErrorCode::Trans001 => ErrorCategory::Transient,
            ErrorCode::Perm001 => ErrorCategory::Permanent,
            ErrorCode::Auth001 | ErrorCode::Auth002 => ErrorCategory::Auth,
            ErrorCode::Pol001 | ErrorCode::Pol002 => ErrorCategory::Policy,
            ErrorCode::Nf001 | ErrorCode::Nf002 => ErrorCategory::NotFound,
            ErrorCode::Conf001 | ErrorCode::Conf002 => ErrorCategory::Conflict,
            ErrorCode::Rl001 => ErrorCategory::RateLimit,
            ErrorCode::Qe001 | ErrorCode::Qe002 => ErrorCategory::QuotaExceeded,
            ErrorCode::Pu001 | ErrorCode::Pu002 => ErrorCategory::ProviderUnavailable,
            ErrorCode::Tm001 | ErrorCode::Tm002 => ErrorCategory::Timeout,
            ErrorCode::Val001 | ErrorCode::Val002 | ErrorCode::Val003 => ErrorCategory::Validation,
        }
    }

    /// The HTTP status each code is answered with.
    pub open spec fn status_of(self) -> u16 {
        match self {
            ErrorCode::Trans001 => 503,
            ErrorCode::Perm001 => 500,
            ErrorCode::Auth001 => 401,
            ErrorCode::Auth002 => 403,
            ErrorCode::Pol001 | ErrorCode::Pol002 => 403,
            ErrorCode::Nf001 | ErrorCode::Nf002 => 404,
            ErrorCode::Conf001 | ErrorCode::Conf002 => 409,
            ErrorCode::Rl001 => 429,
            ErrorCode::Qe001 | ErrorCode::Qe002 => 429,
            ErrorCode::Pu001 | ErrorCode::Pu002 => 502,
            ErrorCode::Tm001 | ErrorCode::Tm002 => 504,
            ErrorCode::Val001 | ErrorCode::Val002 => 400,
            ErrorCode::Val003 => 422,
        }
    }

    /// Codes a client may retry: transient, rate-limit, provider-unavailable
    /// and timeout codes.
    pub open spec fn is_retryable_code(self) -> bool {
        match self {
            ErrorCode::Trans001 | ErrorCode::Rl001 | ErrorCode::Pu001 | ErrorCode::Pu002
            | ErrorCode::Tm001 | ErrorCode::Tm002 => true,
            _ => false,
        }
    }

    /// The canonical code string of each code.
    pub open spec fn code_text(self) -> Seq<char> {
        match self {
            ErrorCode::Trans001 => "TRANS_001"@,
            ErrorCode::Perm001 => "PERM_001"@,
            ErrorCode::Auth001 => "AUTH_001"@,
            ErrorCode::Auth002 => "AUTH_002"@,
            ErrorCode::Pol001 => "POL_001"@,
            ErrorCode::Pol002 => "POL_002"@,
            ErrorCode::Nf001 => "NF_001"@,
            ErrorCode::Nf002 => "NF_002"@,
            ErrorCode::Conf001 => "CONF_001"@,
            ErrorCode::Conf002 => "CONF_002"@,
            ErrorCode::Rl001 => "RL_001"@,
            ErrorCode::Qe001 => "QE_001"@,
            ErrorCode::Qe002 => "QE_002"@,
            ErrorCode::Pu001 => "PU_001"@,
            ErrorCode::Pu002 => "PU_002"@,
            ErrorCode::Tm001 => "TM_001"@,
            ErrorCode::Tm002 => "TM_002"@,
            ErrorCode::Val001 => "VAL_001"@,
            ErrorCode::Val002 => "VAL_002"@,
            ErrorCode::Val003 => "VAL_003"@,
        }
    }

    /// Returns the error category for this code.
    pub fn category(&self) -> (r: ErrorCategory)
        ensures
            r == self.category_of(),
    {
        match self {
            ErrorCode::Trans001 => ErrorCategory::Transient,
            ErrorCode::Perm001 => ErrorCategory::Permanent,
            ErrorCode::Auth001 | ErrorCode::Auth002 => ErrorCategory::Auth,
            ErrorCode::Pol001 | ErrorCode::Pol002 => ErrorCategory::Policy,
            ErrorCode::Nf001 | ErrorCode::Nf002 => ErrorCategory::NotFound,
            ErrorCode::Conf001 | ErrorCode::Conf002 => ErrorCategory::Conflict,
            ErrorCode::Rl001 => ErrorCategory::RateLimit,
            ErrorCode::Qe001 | ErrorCode::Qe002 => ErrorCategory::QuotaExceeded,
            ErrorCode::Pu001 | ErrorCode::Pu002 => ErrorCategory::ProviderUnavailable,
            ErrorCode::Tm001 | ErrorCode::Tm002 => ErrorCategory::Timeout,
            ErrorCode::Val001 | ErrorCode::Val002 | ErrorCode::Val003 => ErrorCategory::Validation,
        }
    }

    /// Returns the HTTP status code for this error code.
    pub fn http_status(&self) -> (r: u16)
        ensures
            r == self.status_of(),
            400 <= r < 600,
    {
        match self {
            ErrorCode::Trans001 => 503,
            ErrorCode::Perm001 => 500,
            ErrorCode::Auth001 => 401,
            ErrorCode::Auth002 => 403,
            ErrorCode::Pol001 | ErrorCode::Pol002 => 403,
            ErrorCode::Nf001 | ErrorCode::Nf002 => 404,
            ErrorCode::Conf001 | ErrorCode::Conf002 => 409,
            ErrorCode::Rl001 => 429,
            ErrorCode::Qe001 | ErrorCode::Qe002 => 429,
            ErrorCode::Pu001 | ErrorCode::Pu002 => 502,
            ErrorCode::Tm001 | ErrorCode::Tm002 => 504,
            ErrorCode::Val001 | ErrorCode::Val002 => 400,
            ErrorCode::Val003 => 422,
        }
    }

    /// Whether the client should retry this error.
    pub fn retryable(&self) -> (r: bool)
        ensures
            r == self.is_retryable_code(),
    {
        match self {
            ErrorCode::Trans001 | ErrorCode::Rl001 | ErrorCode::Pu001 | ErrorCode::Pu002
            | ErrorCode::Tm001 | ErrorCode::Tm002 => true,
            _ => false,
        }
    }

    /// Returns the canonical code string (e.g. "TRANS_001").
    pub fn code_str(&self) -> (r: &'static str)
        ensures
            r@ == self.code_text(),
    {
        match self {
            ErrorCode::Trans001 => "TRANS_001",
            ErrorCode::Perm001 => "PERM_001",
            ErrorCode::Auth001 => "AUTH_001",
            ErrorCode::Auth002 => "AUTH_002",
            ErrorCode::Pol001 => "POL_001",
            ErrorCode::Pol002 => "POL_002",
            ErrorCode::Nf001 => "NF_001",
            ErrorCode::Nf002 => "NF_002",
            ErrorCode::Conf001 => "CONF_001",
            ErrorCode::Conf002 => "CONF_002",
            ErrorCode::Rl001 => "RL_001",
            ErrorCode::Qe001 => "QE_001",
            ErrorCode::Qe002 => "QE_002",
            ErrorCode::Pu001 => "PU_001",
            ErrorCode::Pu002 => "PU_002",
            ErrorCode::Tm001 => "TM_001",
            ErrorCode::Tm002 => "TM_002",
            ErrorCode::Val001 => "VAL_001",
            ErrorCode::Val002 => "VAL_002",
            ErrorCode::Val003 => "VAL_003",
        }
    }
}

/// Every code is answered with an HTTP error status (4xx or 5xx).
pub proof fn lemma_status_is_http_error(code: ErrorCode)
    ensures
        400 <= code.status_of() < 600,
{
}

/// A code may be retried exactly when its category is transient, rate
/// limit, provider unavailable or timeout.
pub proof fn lemma_retryable_by_category(code: ErrorCode)
    ensures
        code.is_retryable_code() <==> (code.category_of() == ErrorCategory::Transient
            || code.category_of() == ErrorCategory::RateLimit || code.category_of()
            == ErrorCategory::ProviderUnavailable || code.category_of() == ErrorCategory::Timeout),
{
}

/// Only the unauthenticated code is answered 401; the refusals of an
/// authenticated caller (the forbidden code and both policy codes) are all
/// answered 403, and no other code is.
pub proof fn lemma_unauthenticated_and_forbidden_statuses(code: ErrorCode)
    ensures
        code.status_of() == 401 <==> code == ErrorCode::Auth001,
        code.status_of() == 403 <==> (code == ErrorCode::Auth002 || code == ErrorCode::Pol001
            || code == ErrorCode::Pol002),
        code.category_of() == ErrorCategory::Auth || code.category_of() == ErrorCategory::Policy
            ==> code.status_of() == 401 || code.status_of() == 403,
{
}

/// Retryable codes are answered with a server-side or rate-limit status:
/// 429 or 5xx.
pub proof fn lemma_retryable_status(code: ErrorCode)
    requires
        code.is_retryable_code(),
    ensures
        code.status_of() == 429 || 500 <= code.status_of() < 600,
{
}

/// The prefix of the code strings of each category.
pub open spec fn category_prefix(c: ErrorCategory) -> Seq<char> {
    match c {
        ErrorCategory::Transient => "TRANS"@,
        ErrorCategory::Permanent => "PERM"@,
        ErrorCategory::Auth => "AUTH"@,
        ErrorCategory::Policy => "POL"@,
        ErrorCategory::NotFound => "NF"@,
        ErrorCategory::Conflict => "CONF"@,
        ErrorCategory::RateLimit => "RL"@,
        ErrorCategory::QuotaExceeded => "QE"@,
        ErrorCategory::ProviderUnavailable => "PU"@,
        ErrorCategory::Timeout => "TM"@,
        ErrorCategory::Validation => "VAL"@,
    }
}

/// A code string is its category's prefix, an underscore and a number: the
/// part before the first underscore names the code's category.
pub proof fn lemma_code_prefix_names_category(code: ErrorCode)
    ensures
        code.code_text().len() > category_prefix(code.category_of()).len(),
        code.code_text().subrange(0, category_prefix(code.category_of()).len() as int)
            == category_prefix(code.category_of()),
        code.code_text()[category_prefix(code.category_of()).len() as int] == '_',
        forall|i: int| 0 <= i < category_prefix(code.category_of()).len()
            ==> #[trigger] category_prefix(code.category_of())[i] != '_',
{
    reveal_strlit("TRANS");
    reveal_strlit("PERM");
    reveal_strlit("AUTH");
    reveal_strlit("POL");
    reveal_strlit("NF");
    reveal_strlit("CONF");
    reveal_strlit("RL");
    reveal_strlit("QE");
    reveal_strlit("PU");
    reveal_strlit("TM");
    reveal_strlit("VAL");
    reveal_strlit("TRANS_001");
    reveal_strlit("PERM_001");
    reveal_strlit("AUTH_001");
    reveal_strlit("AUTH_002");
    reveal_strlit("POL_001");
    reveal_strlit("POL_002");
    reveal_strlit("NF_001");
    reveal_strlit("NF_002");
    reveal_strlit("CONF_001");
    reveal_strlit("CONF_002");
    reveal_strlit("RL_001");
    reveal_strlit("QE_001");
    reveal_strlit("QE_002");
    reveal_strlit("PU_001");
    reveal_strlit("PU_002");
    reveal_strlit("TM_001");
    reveal_strlit("TM_002");
    reveal_strlit("VAL_001");
    reveal_strlit("VAL_002");
    reveal_strlit("VAL_003");
    let t = code.code_text();
    let p = category_prefix(code.category_of());
    assert(t.subrange(0, p.len() as int) =~= p);
}

/// Distinct categories have distinct prefixes, so a prefix names one
/// category.
pub proof fn lemma_category_prefix_injective(a: ErrorCategory, b: ErrorCategory)
    requires
        category_prefix(a) == category_prefix(b),
    ensures
        a == b,
{
    reveal_strlit("TRANS");
    reveal_strlit("PERM");
    reveal_strlit("AUTH");
    reveal_strlit("POL");
    reveal_strlit("NF");
    reveal_strlit("CONF");
    reveal_strlit("RL");
    reveal_strlit("QE");
    reveal_strlit("PU");
    reveal_strlit("TM");
    reveal_strlit("VAL");
    let t = category_prefix(a);
    let u = category_prefix(b);
    assert(t.len() == u.len());
    assert(t[0] == u[0]);
    assert(t[1] == u[1]);
}

/// Distinct codes have distinct code strings, so a code string names one
/// code.
pub proof fn lemma_code_text_injective(a: ErrorCode, b: ErrorCode)
    requires
        a.code_text() == b.code_text(),
    ensures
        a == b,
{
    reveal_strlit("TRANS_001");
    reveal_strlit("PERM_001");
    reveal_strlit("AUTH_001");
    reveal_strlit("AUTH_002");
    reveal_strlit("POL_001");
    reveal_strlit("POL_002");
    reveal_strlit("NF_001");
    reveal_strlit("NF_002");
    reveal_strlit("CONF_001");
    reveal_strlit("CONF_002");
    reveal_strlit("RL_001");
    reveal_strlit("QE_001");
    reveal_strlit("QE_002");
    reveal_strlit("PU_001");
    reveal_strlit("PU_002");
    reveal_strlit("TM_001");
    reveal_strlit("TM_002");
    reveal_strlit("VAL_001");
    reveal_strlit("VAL_002");
    reveal_strlit("VAL_003");
    let t = a.code_text();
    let u = b.code_text();
    assert(t.len() == u.len());
    assert(t[0] == u[0]);
    assert(t[1] == u[1]);
    assert(t[t.len() - 1] == u[u.len() - 1]);
}


/// Inner body of the canonical error response. `details` carries the JSON
/// text of the error details; `None` stands for JSON `null`.
#[derive(Debug, Clone)]
pub struct CortexErrorBody {
    pub code: String,
    pub category: ErrorCategory,
    pub message: String,
    pub details: Option<String>,
    pub retryable: bool,
    pub retry_after_ms: Option<u64>,
}

/// Universal error response format.
#[derive(Debug, Clone)]
pub struct CortexError {
    pub error: CortexErrorBody,
}

/// Metadata included in success responses.
#[derive(Debug, Clone)]
pub struct ResponseMeta {
    pub request_id: String,
    pub timestamp: String,
}

/// Standard success response envelope.
#[derive(Debug, Clone)]
pub struct SuccessResponse<T> {
    pub data: T,
    pub meta: Option<ResponseMeta>,
}

/// The canonical error body for `code` with the given message: code string,
/// category and retry flag all taken from the code, no details and no
/// retry delay.
pub open spec fn canonical_error(code: ErrorCode, message: Seq<char>, e: CortexError) -> bool {
    &&& e.error.code@ == code.code_text()
    &&& e.error.category == code.category_of()
    &&& e.error.message@ == message
    &&& e.error.details is None
    &&& e.error.retryable == code.is_retryable_code()
    &&& e.error.retry_after_ms is None
}

/// Build the canonical error response for `code` and `message`.
pub fn build_cortex_error(code: ErrorCode, message: String) -> (r: CortexError)
    ensures
        canonical_error(code, message@, r),
{
    CortexError {
        error: CortexErrorBody {
            code: String::from_str(code.code_str()),
            category: code.category(),
            message,
            details: None,
            retryable: code.retryable(),
            retry_after_ms: None,
        },
    }
}

/// Foundation error type for cross-cutting failures.
#[derive(Debug)]
pub enum CoreError {
    /// A required resource was not found.
    NotFound(String),
    /// Input validation failed.
    Validation(String),
    /// An unexpected internal error occurred.
    Internal(String),
}

impl CoreError {
    /// The code each variant is reported with.
    pub open spec fn code_of(&self) -> ErrorCode {
        match self {
            CoreError::NotFound(_) => ErrorCode::Nf001,
            CoreError::Validation(_) => ErrorCode::Val001,
            CoreError::Internal(_) => ErrorCode::Perm001,
        }
    }

    /// The message carried by the variant.
    pub open spec fn payload(&self) -> Seq<char> {
        match self {
            CoreError::NotFound(m) => m@,
            CoreError::Validation(m) => m@,
            CoreError::Internal(m) => m@,
        }
    }

    /// Convert to a canonical CortexError for API responses.
    pub fn to_cortex_error(&self, _request_id: &str) -> (r: CortexError)
        ensures
            canonical_error(self.code_of(), self.payload(), r),
    {
        let (code, message) = match self {
            CoreError::NotFound(msg) => (ErrorCode::Nf001, msg.clone()),
            CoreError::Validation(msg) => (ErrorCode::Val001, msg.clone()),
            CoreError::Internal(msg) => (ErrorCode::Perm001, msg.clone()),
        };
        build_cortex_error(code, message)
    }

    /// The human-readable message of the error.
    pub fn to_message(&self) -> (r: String)
        ensures
            r@ == match self {
                CoreError::NotFound(m) => "not found: "@ + m@,
                CoreError::Validation(m) => "validation failed: "@ + m@,
                CoreError::Internal(m) => "internal error: "@ + m@,
            },
    {
        match self {
            CoreError::NotFound(m) => String::from_str("not found: ").concat(m.as_str()),
            CoreError::Validation(m) => String::from_str("validation failed: ").concat(m.as_str()),
            CoreError::Internal(m) => String::from_str("internal error: ").concat(m.as_str()),
        }
    }
}

} // verus!
