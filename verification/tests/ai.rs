use cortexos::ai::error::AiError;
use cortexos::ai::routing::{
    history_from_rows, listed_adapters, provider_from_type_text, provider_info_from_row,
    adapter_name_from_type_text, provider_row_values, resolve_adapter, routing_names, StubAdapter,
};
use cortexos::ai::types::{ChatMessage, ChatRole, ProviderInfo, TimeoutCategory, TokenUsage};
use cortexos::base::types::AiProvider;
use cortexos::db::error::DbError;

#[test]
fn display_messages() {
    assert_eq!(
        AiError::NoProviderConfigured.to_message(),
        "no AI provider configured"
    );
    assert_eq!(
        AiError::ProviderUnavailable {
            provider: "openai".into()
        }
        .to_message(),
        "provider unavailable: openai"
    );
    assert_eq!(
        AiError::Timeout {
            provider: "anthropic".into()
        }
        .to_message(),
        "request timed out waiting for anthropic"
    );
    assert_eq!(
        AiError::BudgetExceeded.to_message(),
        "daily AI budget exceeded"
    );
    assert_eq!(
        AiError::RateLimited {
            retry_after_ms: Some(5000)
        }
        .to_message(),
        "rate limited by provider"
    );
    assert_eq!(
        AiError::InvalidRequest("bad model".into()).to_message(),
        "invalid request: bad model"
    );
    assert_eq!(AiError::Internal.to_message(), "internal AI error");
}

#[test]
fn retryable_variants() {
    assert!(AiError::ProviderUnavailable {
        provider: "x".into()
    }
    .is_retryable());
    assert!(AiError::Timeout {
        provider: "x".into()
    }
    .is_retryable());
    assert!(AiError::RateLimited {
        retry_after_ms: None
    }
    .is_retryable());
    assert!(!AiError::NoProviderConfigured.is_retryable());
    assert!(!AiError::BudgetExceeded.is_retryable());
    assert!(!AiError::InvalidRequest("x".into()).is_retryable());
    assert!(!AiError::Internal.is_retryable());
}

#[test]
fn token_usage_new_sums_correctly() {
    let usage = TokenUsage::new(100, 50);
    assert_eq!(usage.prompt_tokens, 100);
    assert_eq!(usage.completion_tokens, 50);
    assert_eq!(usage.total_tokens, 150);
}

#[test]
fn token_usage_zero() {
    let usage = TokenUsage::new(0, 0);
    assert_eq!(usage.total_tokens, 0);
}

#[test]
fn token_usage_large_values() {
    let usage = TokenUsage::new(u32::MAX / 2, u32::MAX / 2);
    assert_eq!(usage.total_tokens, u32::MAX - 1);
}

#[test]
fn timeout_category_durations() {
    assert_eq!(TimeoutCategory::Fast.duration_secs(), 5);
    assert_eq!(TimeoutCategory::Standard.duration_secs(), 30);
    assert_eq!(TimeoutCategory::Long.duration_secs(), 120);
    assert_eq!(TimeoutCategory::Streaming.duration_secs(), 300);
}

#[test]
fn timeout_category_duration_objects() {
    assert_eq!(
        TimeoutCategory::Fast.duration(),
        std::time::Duration::from_secs(5)
    );
    assert_eq!(
        TimeoutCategory::Standard.duration(),
        std::time::Duration::from_secs(30)
    );
    assert_eq!(
        TimeoutCategory::Long.duration(),
        std::time::Duration::from_secs(120)
    );
    assert_eq!(
        TimeoutCategory::Streaming.duration(),
        std::time::Duration::from_secs(300)
    );
}

#[test]
fn stub_adapter_returns_canned_response() {
    let adapter = StubAdapter::new(AiProvider::OpenAI, "gpt-4o", "Hello from stub!");
    let response = adapter.chat_reply();
    assert_eq!(response.message.content, "Hello from stub!");
    assert_eq!(response.message.role, ChatRole::Assistant);
    assert_eq!(response.model, "gpt-4o");
    assert_eq!(response.provider, AiProvider::OpenAI);
    assert_eq!(response.usage.prompt_tokens, 10);
    assert_eq!(response.usage.completion_tokens, 20);
    assert_eq!(response.usage.total_tokens, 30);
}

#[test]
fn stub_adapter_name_and_models() {
    let adapter = StubAdapter::new(AiProvider::Anthropic, "model-x", "hi");
    assert_eq!(adapter.name(), "anthropic");
    let models = adapter.models();
    assert_eq!(models.len(), 1);
    assert_eq!(models[0].id, "model-x");
    assert_eq!(models[0].provider, AiProvider::Anthropic);
}

/// The stored type columns of the enabled providers, highest priority
/// first, as the provider table is read.
fn enabled_stored_types(providers: &[ProviderInfo]) -> Vec<String> {
    let mut enabled: Vec<&ProviderInfo> = providers.iter().filter(|p| p.is_enabled).collect();
    enabled.sort_by_key(|p| p.priority);
    enabled.iter().map(|p| provider_row_values(p).provider_type).collect()
}

#[test]
fn chat_uses_highest_priority_adapter() {
    let high = StubAdapter::new(AiProvider::OpenAI, "gpt-4o", "from-openai");
    let low = StubAdapter::new(AiProvider::Anthropic, "anthropic-large", "from-anthropic");
    let adapters = vec![high, low];
    let configured = vec![
        ProviderInfo {
            provider_type: AiProvider::OpenAI,
            display_name: "OpenAI".into(),
            is_enabled: true,
            priority: 0,
        },
        ProviderInfo {
            provider_type: AiProvider::Anthropic,
            display_name: "Anthropic".into(),
            is_enabled: true,
            priority: 5,
        },
    ];
    let names: Vec<String> = adapters.iter().map(|a| a.name().to_string()).collect();
    let providers = routing_names(&enabled_stored_types(&configured));
    let index = resolve_adapter(&names, &providers, None).unwrap();
    let response = adapters[index].chat_reply();
    assert_eq!(response.message.content, "from-openai");
}

#[test]
fn priority_decides_whatever_the_registration_order() {
    let adapters = vec![
        StubAdapter::new(AiProvider::Anthropic, "anthropic-large", "from-anthropic"),
        StubAdapter::new(AiProvider::OpenAI, "gpt-4o", "from-openai"),
    ];
    let configured = vec![
        ProviderInfo {
            provider_type: AiProvider::Anthropic,
            display_name: "Anthropic".into(),
            is_enabled: true,
            priority: 5,
        },
        ProviderInfo {
            provider_type: AiProvider::OpenAI,
            display_name: "OpenAI".into(),
            is_enabled: true,
            priority: 0,
        },
    ];
    let names: Vec<String> = adapters.iter().map(|a| a.name().to_string()).collect();
    let providers = routing_names(&enabled_stored_types(&configured));
    assert_eq!(providers, vec!["openai".to_string(), "anthropic".to_string()]);
    let index = resolve_adapter(&names, &providers, None).unwrap();
    assert_eq!(adapters[index].chat_reply().message.content, "from-openai");
    // With a model requested, the adapter that goes with it answers.
    assert_eq!(resolve_adapter(&names, &providers, Some("anthropic-large")), Some(0));
}

#[test]
fn stored_type_columns_route_by_adapter_name() {
    assert_eq!(adapter_name_from_type_text("\"open_a_i\""), "openai");
    assert_eq!(adapter_name_from_type_text("\"zhipu\""), "zhipu");
    assert_eq!(adapter_name_from_type_text("\"unknown\""), "custom");
    assert_eq!(adapter_name_from_type_text("not json"), "custom");
}

#[test]
fn chat_returns_no_provider_when_none_configured() {
    let names: Vec<String> = vec![];
    let providers: Vec<String> = vec!["openai".to_string()];
    assert_eq!(resolve_adapter(&names, &providers, None), None);
    let one = vec!["openai".to_string()];
    assert_eq!(resolve_adapter(&one, &vec![], None), Some(0));
}

#[test]
fn list_models_from_adapter() {
    let names = vec!["openai".to_string(), "anthropic".to_string()];
    assert_eq!(listed_adapters(&names, None), vec![0, 1]);
    assert_eq!(listed_adapters(&names, Some("anthropic")), vec![1]);
}

#[test]
fn configure_and_list_providers() {
    let info = ProviderInfo {
        provider_type: AiProvider::OpenAI,
        display_name: "OpenAI".to_string(),
        is_enabled: true,
        priority: 1,
    };
    let row = provider_row_values(&info);
    assert_eq!(row.provider_id, "open_a_i");
    assert_eq!(row.provider_type, "\"open_a_i\"");
    assert_eq!(row.is_enabled, 1);
    let back = provider_info_from_row(&row.provider_type, row.display_name.clone(), row.is_enabled, row.priority);
    assert_eq!(back.provider_type, AiProvider::OpenAI);
    assert_eq!(back.display_name, "OpenAI");
    assert!(back.is_enabled);
    assert_eq!(provider_from_type_text("\"nonsense\""), AiProvider::Custom);
    assert_eq!(provider_from_type_text("not json"), AiProvider::Custom);
}

#[test]
fn chat_history_persists_multiple_messages() {
    let rows = vec![
        ("user".to_string(), "Explain ownership".to_string()),
        ("assistant".to_string(), "Ownership is...".to_string()),
    ];
    let history = history_from_rows(rows).unwrap();
    assert_eq!(
        history,
        vec![
            ChatMessage {
                role: ChatRole::User,
                content: "Explain ownership".to_string()
            },
            ChatMessage {
                role: ChatRole::Assistant,
                content: "Ownership is...".to_string()
            },
        ]
    );
}

#[test]
fn chat_history_rejects_unknown_role() {
    let rows = vec![
        ("user".to_string(), "a".to_string()),
        ("robot".to_string(), "b".to_string()),
        ("alien".to_string(), "c".to_string()),
    ];
    match history_from_rows(rows) {
        Err(DbError::Query(m)) => assert_eq!(m, "unknown role: robot"),
        _ => panic!("expected a query error"),
    }
}

#[test]
fn chat_role_text_roundtrip() {
    for role in [ChatRole::System, ChatRole::User, ChatRole::Assistant] {
        assert_eq!(ChatRole::from_text(role.as_text()), Some(role));
    }
    assert_eq!(ChatRole::from_request_text("robot"), ChatRole::User);
}
