//! AI route decisions: how chat request bodies become messages, how AI
//! failures are answered, and the response bodies.

use vstd::prelude::*;
use crate::ai::error::AiError;
use crate::ai::types::{ChatMessage, ChatResponse, ChatRole, ModelInfo, ProviderInfo};
use crate::api::error::ApiError;

verus! {

/// A chat message as it appears in request and response bodies.
#[derive(Debug, Clone)]
pub struct ChatMessageBody {
    pub role: String,
    pub content: String,
}

/// Token usage as it appears in a response body.
#[derive(Debug, Clone)]
pub struct TokenUsageBody {
    pub prompt_tokens: u32,
    pub completion_tokens: u32,
    pub total_tokens: u32,
}

/// The chat response body.
#[derive(Debug, Clone)]
pub struct ChatResponseBody {
    pub message: ChatMessageBody,
    pub usage: TokenUsageBody,
    pub model: String,
    pub provider: String,
}

/// Provider information as it appears in a response body.
#[derive(Debug, Clone)]
pub struct ProviderInfoBody {
    pub provider_type: String,
    pub display_name: String,
    pub is_enabled: bool,
    pub priority: i32,
}

/// Model information as it appears in a response body.
#[derive(Debug, Clone)]
pub struct ModelInfoBody {
    pub id: String,
    pub display_name: String,
    pub provider: String,
}

/// The role a request body's role text names: `system` and `assistant` as
/// such, anything else the user.
pub open spec fn request_role(text: Seq<char>) -> ChatRole {
    if text == "system"@ {
        ChatRole::System
    } else if text == "assistant"@ {
        ChatRole::Assistant
    } else {
        ChatRole::User
    }
}

/// The chat messages of a request body, in order.
pub fn chat_messages(bodies: Vec<ChatMessageBody>) -> (r: Vec<ChatMessage>)
    ensures
        r@.len() == bodies@.len(),
        forall|i: int|
            0 <= i < bodies@.len() ==> (#[trigger] r@[i]).role == request_role(bodies@[i].role@)
                && r@[i].content == bodies@[i].content,
{
    let mut out: Vec<ChatMessage> = Vec::new();
    let mut i: usize = 0;
    while i < bodies.len()
        invariant
            i <= bodies@.len(),
            out@.len() == i,
            forall|j: int|
                0 <= j < i ==> (#[trigger] out@[j]).role == request_role(bodies@[j].role@)
                    && out@[j].content == bodies@[j].content,
        decreases bodies.len() - i,
    {
        let b = &bodies[i];
        out.push(
            ChatMessage { role: ChatRole::from_request_text(b.role.as_str()), content: b.content.clone() },
        );
        i = i + 1;
    }
    out
}

/// The answer to a failed chat request.
pub fn chat_error(e: AiError) -> (r: ApiError)
    ensures
        match e {
            AiError::NoProviderConfigured => r matches ApiError::BadRequest(m) && m@
                == "no AI provider configured"@,
            AiError::ProviderUnavailable { provider } => r matches ApiError::Internal(m) && m@
                == "provider unavailable: "@ + provider@,
            AiError::BudgetExceeded => r matches ApiError::BadRequest(m) && m@
                == "daily AI budget exceeded"@,
            AiError::RateLimited { .. } => r matches ApiError::Internal(m) && m@
                == "rate limited by provider"@,
            AiError::InvalidRequest(msg) => r == ApiError::BadRequest(msg),
            AiError::Timeout { provider } => r matches ApiError::Internal(m) && m@
                == "timeout waiting for "@ + provider@,
            AiError::Internal => r matches ApiError::Internal(m) && m@ == "AI error"@,
        },
{
    match e {
        AiError::NoProviderConfigured => ApiError::BadRequest(
            String::from_str("no AI provider configured"),
        ),
        AiError::ProviderUnavailable { provider } => ApiError::Internal(
            String::from_str("provider unavailable: ").concat(provider.as_str()),
        ),
        AiError::BudgetExceeded => ApiError::BadRequest(String::from_str("daily AI budget exceeded")),
        AiError::RateLimited { .. } => ApiError::Internal(String::from_str("rate limited by provider")),
        AiError::InvalidRequest(msg) => ApiError::BadRequest(msg),
        AiError::Timeout { provider } => ApiError::Internal(
            String::from_str("timeout waiting for ").concat(provider.as_str()),
        ),
        AiError::Internal => ApiError::Internal(String::from_str("AI error")),
    }
}

/// The answer to a failed provider or model listing: an internal error
/// carrying the failure's message.
pub fn listing_error(e: &AiError) -> (r: ApiError)
    ensures
        r matches ApiError::Internal(m) && m@ == e.message_of(),
{
    ApiError::Internal(e.to_message())
}

/// The response body of a chat response: the role and provider by their
/// wire names, the usage and model as they are.
pub fn chat_response_body(response: ChatResponse) -> (r: ChatResponseBody)
    ensures
        r.message.role@ == response.message.role.text_of(),
        r.message.content == response.message.content,
        r.usage.prompt_tokens == response.usage.prompt_tokens,
        r.usage.completion_tokens == response.usage.completion_tokens,
        r.usage.total_tokens == response.usage.total_tokens,
        r.model == response.model,
        r.provider@ == response.provider.wire_name_of(),
{
    let role = String::from_str(response.message.role.as_text());
    let provider = String::from_str(response.provider.wire_name());
    ChatResponseBody {
        message: ChatMessageBody { role, content: response.message.content },
        usage: TokenUsageBody {
            prompt_tokens: response.usage.prompt_tokens,
            completion_tokens: response.usage.completion_tokens,
            total_tokens: response.usage.total_tokens,
        },
        model: response.model,
        provider,
    }
}

/// The response bodies of configured providers, in order.
pub fn provider_bodies(providers: Vec<ProviderInfo>) -> (r: Vec<ProviderInfoBody>)
    ensures
        r@.len() == providers@.len(),
        forall|i: int|
            0 <= i < providers@.len() ==> {
                &&& (#[trigger] r@[i]).provider_type@ == providers@[i].provider_type.wire_name_of()
                &&& r@[i].display_name == providers@[i].display_name
                &&& r@[i].is_enabled == providers@[i].is_enabled
                &&& r@[i].priority == providers@[i].priority
            },
{
    let mut out: Vec<ProviderInfoBody> = Vec::new();
    let mut i: usize = 0;
    while i < providers.len()
        invariant
            i <= providers@.len(),
            out@.len() == i,
            forall|j: int|
                0 <= j < i ==> {
                    &&& (#[trigger] out@[j]).provider_type@ == providers@[j].provider_type.wire_name_of()
                    &&& out@[j].display_name == providers@[j].display_name
                    &&& out@[j].is_enabled == providers@[j].is_enabled
                    &&& out@[j].priority == providers@[j].priority
                },
        decreases providers.len() - i,
    {
        let p = &providers[i];
        out.push(
            ProviderInfoBody {
                provider_type: String::from_str(p.provider_type.wire_name()),
                display_name: p.display_name.clone(),
                is_enabled: p.is_enabled,
                priority: p.priority,
            },
        );
        i = i + 1;
    }
    out
}

/// The response bodies of available models, in order.
pub fn model_bodies(models: Vec<ModelInfo>) -> (r: Vec<ModelInfoBody>)
    ensures
        r@.len() == models@.len(),
        forall|i: int|
            0 <= i < models@.len() ==> {
                &&& (#[trigger] r@[i]).id == models@[i].id
                &&& r@[i].display_name == models@[i].display_name
                &&& r@[i].provider@ == models@[i].provider.wire_name_of()
            },
{
    let mut out: Vec<ModelInfoBody> = Vec::new();
    let mut i: usize = 0;
    while i < models.len()
        invariant
            i <= models@.len(),
            out@.len() == i,
            forall|j: int|
                0 <= j < i ==> {
                    &&& (#[trigger] out@[j]).id == models@[j].id
                    &&& out@[j].display_name == models@[j].display_name
                    &&& out@[j].provider@ == models@[j].provider.wire_name_of()
                },
        decreases models.len() - i,
    {
        let m = &models[i];
        out.push(
            ModelInfoBody {
                id: m.id.clone(),
                display_name: m.display_name.clone(),
                provider: String::from_str(m.provider.wire_name()),
            },
        );
        i = i + 1;
    }
    out
}

} // verus!
