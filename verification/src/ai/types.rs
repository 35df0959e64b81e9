//! AI runtime domain types.

use vstd::prelude::*;
use crate::base::types::AiProvider;

verus! {

/// Chat message role.
#[derive(Debug, Clone, Copy, PartialEq, Eq, Hash, Structural)]
pub enum ChatRole {
    System,
    User,
    Assistant,
}

impl ChatRole {
    /// The stored and wire text of each role.
    pub open spec fn text_of(self) -> Seq<char> {
        match self {
            ChatRole::System => "system"@,
            ChatRole::User => "user"@,
            ChatRole::Assistant => "assistant"@,
        }
    }

    /// The text of the role.
    pub fn as_text(&self) -> (r: &'static str)
        ensures
            r@ == self.text_of(),
    {
        match self {
            ChatRole::System => "system",
            ChatRole::User => "user",
            ChatRole::Assistant => "assistant",
        }
    }

    /// The role whose text is `s`, if any.
    pub fn from_text(s: &str) -> (r: Option<ChatRole>)
        ensures
            r matches Some(role) ==> role.text_of() == s@,
            r is None ==> s@ != "system"@ && s@ != "user"@ && s@ != "assistant"@,
    {
        if crate::text::equals(s, "system") {
            Some(ChatRole::System)
        } else if crate::text::equals(s, "user") {
            Some(ChatRole::User)
        } else if crate::text::equals(s, "assistant") {
            Some(ChatRole::Assistant)
        } else {
            None
        }
    }

    /// The role a chat request body names: `"system"` and `"assistant"` are
    /// taken as such, anything else as the user.
    pub fn from_request_text(s: &str) -> (r: ChatRole)
        ensures
            r == (if s@ == "system"@ {
                ChatRole::System
            } else if s@ == "assistant"@ {
                ChatRole::Assistant
            } else {
                ChatRole::User
            }),
    {
        if crate::text::equals(s, "system") {
            ChatRole::System
        } else if crate::text::equals(s, "assistant") {
            ChatRole::Assistant
        } else {
            ChatRole::User
        }
    }
}

/// Distinct roles have distinct texts, so reading a role back from its text
/// (`ChatRole::from_text`) gives the role.
pub proof fn lemma_role_text_injective(a: ChatRole, b: ChatRole)
    requires
        a.text_of() == b.text_of(),
    ensures
        a == b,
{
    reveal_strlit("system");
    reveal_strlit("user");
    reveal_strlit("assistant");
    let t = a.text_of();
    let u = b.text_of();
    assert(t.len() == u.len());
    assert(t[0] == u[0]);
    assert(t[1] == u[1]);
    assert(t[t.len() - 1] == u[u.len() - 1]);
}

/// A single message in a chat conversation.
#[derive(Debug, Clone, PartialEq, Eq)]
pub struct ChatMessage {
    /// The role of the message author.
    pub role: ChatRole,
    /// The text content of the message.
    pub content: String,
}

/// Token usage statistics returned by a provider.
#[derive(Debug, Clone, Copy, PartialEq, Eq)]
pub struct TokenUsage {
    /// Tokens consumed by the prompt.
    pub prompt_tokens: u32,
    /// Tokens produced in the completion.
    pub completion_tokens: u32,
    /// Total tokens (prompt + completion).
    pub total_tokens: u32,
}

impl TokenUsage {
    /// Convenience constructor that computes `total_tokens` from the two parts.
    pub fn new(prompt_tokens: u32, completion_tokens: u32) -> (r: Self)
        requires
            prompt_tokens + completion_tokens <= u32::MAX,
        ensures
            r.prompt_tokens == prompt_tokens,
            r.completion_tokens == completion_tokens,
            r.total_tokens == prompt_tokens + completion_tokens,
    {
        TokenUsage { prompt_tokens, completion_tokens, total_tokens: prompt_tokens + completion_tokens }
    }
}

/// A chat completion response returned from a provider.
#[derive(Debug, Clone)]
pub struct ChatResponse {
    /// The assistant's reply message.
    pub message: ChatMessage,
    /// Token usage statistics for this request.
    pub usage: TokenUsage,
    /// The model identifier that was actually used.
    pub model: String,
    /// The provider that handled the request.
    pub provider: AiProvider,
}

/// Information about a configured AI provider.
#[derive(Debug, Clone)]
pub struct ProviderInfo {
    /// The provider type.
    pub provider_type: AiProvider,
    /// Human-readable provider name for display.
    pub display_name: String,
    /// Whether the provider is currently enabled and available.
    pub is_enabled: bool,
    /// Priority for fallback ordering (lower = higher priority).
    pub priority: i32,
}

/// Information about an available AI model.
#[derive(Debug, Clone)]
pub struct ModelInfo {
    /// The model identifier (e.g. "gpt-4o").
    pub id: String,
    /// Human-readable model name (e.g. "GPT-4o").
    pub display_name: String,
    /// The provider offering this model.
    pub provider: AiProvider,
}

/// Timeout presets for different classes of AI request.
#[derive(Debug, Clone, Copy, PartialEq, Eq, Hash, Structural)]
pub enum TimeoutCategory {
    /// Quick lookups, short prompts -- 5 s.
    Fast,
    /// Normal chat completions -- 30 s.
    Standard,
    /// Long-form generation, code -- 120 s.
    Long,
    /// Streaming sessions -- 300 s.
    Streaming,
}

/// The `Duration` of `secs` whole seconds.
pub uninterp spec fn duration_of_secs(secs: u64) -> core::time::Duration;

/// Calls `core::time::Duration::from_secs`; the result is named
/// `duration_of_secs` of the argument.
#[verifier::external_body]
fn duration_from_secs(secs: u64) -> (r: core::time::Duration)
    ensures
        r == duration_of_secs(secs),
{
    core::time::Duration::from_secs(secs)
}

impl TimeoutCategory {
    /// The timeout of each category, in seconds.
    pub open spec fn secs_of(self) -> u64 {
        match self {
            TimeoutCategory::Fast => 5,
            TimeoutCategory::Standard => 30,
            TimeoutCategory::Long => 120,
            TimeoutCategory::Streaming => 300,
        }
    }

    /// Return the timeout duration in seconds for this category.
    pub fn duration_secs(&self) -> (r: u64)
        ensures
            r == self.secs_of(),
    {
        match self {
            TimeoutCategory::Fast => 5,
            TimeoutCategory::Standard => 30,
            TimeoutCategory::Long => 120,
            TimeoutCategory::Streaming => 300,
        }
    }

    /// Return the timeout as a [`std::time::Duration`].
    pub fn duration(&self) -> (r: core::time::Duration)
        ensures
            r == duration_of_secs(self.secs_of()),
    {
        duration_from_secs(self.duration_secs())
    }
}

} // verus!
