//! AI runtime error types.

use vstd::prelude::*;

verus! {

/// Errors that can occur during AI operations.
#[derive(Debug)]
pub enum AiError {
    /// No AI provider has been configured at all.
    NoProviderConfigured,
    /// The selected provider is unreachable or returned an unexpected error.
    ProviderUnavailable {
        /// Which provider failed.
        provider: String,
    },
    /// The request timed out waiting for a provider response.
    Timeout {
        /// Which provider timed out.
        provider: String,
    },
    /// The configured daily budget has been exceeded.
    BudgetExceeded,
    /// The provider rate-limited the request.
    RateLimited {
        /// Suggested retry delay in milliseconds, if the provider supplied one.
        retry_after_ms: Option<u64>,
    },
    /// The request was malformed or contained invalid parameters.
    InvalidRequest(String),
    /// An unexpected internal error not attributable to any provider.
    Internal,
}

impl AiError {
    /// Provider-unavailable, rate-limit and timeout failures may be retried.
    pub open spec fn retryable_kind(&self) -> bool {
        self is ProviderUnavailable || self is RateLimited || self is Timeout
    }

    /// Returns `true` if the caller may reasonably retry the same request.
    pub fn is_retryable(&self) -> (r: bool)
        ensures
            r == self.retryable_kind(),
    {
        match self {
            AiError::ProviderUnavailable { .. } | AiError::RateLimited { .. } | AiError::Timeout { .. } => true,
            _ => false,
        }
    }

    /// The human-readable message of each variant.
    pub open spec fn message_of(&self) -> Seq<char> {
        match self {
            AiError::NoProviderConfigured => "no AI provider configured"@,
            AiError::ProviderUnavailable { provider } => "provider unavailable: "@ + provider@,
            AiError::Timeout { provider } => "request timed out waiting for "@ + provider@,
            AiError::BudgetExceeded => "daily AI budget exceeded"@,
            AiError::RateLimited { .. } => "rate limited by provider"@,
            AiError::InvalidRequest(m) => "invalid request: "@ + m@,
            AiError::Internal => "internal AI error"@,
        }
    }

    /// The human-readable message of the error.
    pub fn to_message(&self) -> (r: String)
        ensures
            r@ == self.message_of(),
    {
        match self {
            AiError::NoProviderConfigured => String::from_str("no AI provider configured"),
            AiError::ProviderUnavailable { provider } => String::from_str("provider unavailable: ").concat(
                provider.as_str(),
            ),
            AiError::Timeout { provider } => String::from_str("request timed out waiting for ").concat(
                provider.as_str(),
            ),
            AiError::BudgetExceeded => String::from_str("daily AI budget exceeded"),
            AiError::RateLimited { .. } => String::from_str("rate limited by provider"),
            AiError::InvalidRequest(m) => String::from_str("invalid request: ").concat(m.as_str()),
            AiError::Internal => String::from_str("internal AI error"),
        }
    }
}

} // verus!
