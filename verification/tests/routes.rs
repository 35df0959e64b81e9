use cortexos::admin::health::HealthStatus;
use cortexos::admin::types::{DiagnosticReport, SystemHealth};
use cortexos::ai::error::AiError;
use cortexos::ai::routing::{provider_from_type_text, provider_info_from_row};
use cortexos::ai::types::{ModelInfo, ProviderInfo};
use cortexos::api::bus::Channel;
use cortexos::api::error::ApiError;
use cortexos::api::middleware::auth::auth_context;
use cortexos::api::routes::admin::diagnostics_response;
use cortexos::api::routes::ai::{listing_error, model_bodies, provider_bodies};
use cortexos::api::routes::auth::{internal_error, login_response, profile_response};
use cortexos::api::ws::{remove_session_from, WsSession};
use cortexos::auth::error::AuthError;
use cortexos::auth::types::{Session, UserProfile};
use cortexos::base::types::AiProvider;
use cortexos::base::ids::{SessionId, SessionToken, UserId};

const USER: &str = "0190a5b4-7c3e-7d2a-9f10-3c4b5a6d7e8f";
const SESSION: &str = "0190a5b4-7c3e-7d2a-9f10-aaaaaaaaaaaa";

fn parse_id(s: &str) -> u128 {
    uuid::Uuid::parse_str(s).unwrap().as_u128()
}

#[test]
fn login_response_carries_hyphenated_ids_and_expiry() {
    let session = Session {
        session_id: SessionId(parse_id(SESSION)),
        user_id: UserId(parse_id(USER)),
        token: SessionToken("tok".to_string()),
        created_at: "2024-01-01T00:00:00+00:00".to_string(),
        expires_at: "2024-01-02T00:00:00+00:00".to_string(),
    };
    let r = login_response(session);
    assert_eq!(r.session_id, SESSION);
    assert_eq!(r.user_id, USER);
    assert_eq!(r.expires_at, "2024-01-02T00:00:00+00:00");
}

#[test]
fn profile_response_keeps_profile_fields() {
    let profile = UserProfile {
        user_id: UserId(parse_id(USER)),
        username: "alice".to_string(),
        display_name: "Alice".to_string(),
        created_at: "2024-01-01T00:00:00+00:00".to_string(),
    };
    let r = profile_response(profile);
    assert_eq!(r.user_id, USER);
    assert_eq!(r.username, "alice");
    assert_eq!(r.display_name, "Alice");
    assert_eq!(r.created_at, "2024-01-01T00:00:00+00:00");
}

#[test]
fn internal_and_listing_errors_carry_the_message() {
    match internal_error(&AuthError::UserNotFound) {
        ApiError::Internal(m) => assert_eq!(m, "user not found"),
        other => panic!("unexpected {other:?}"),
    }
    match listing_error(&AiError::NoProviderConfigured) {
        ApiError::Internal(m) => assert_eq!(m, "no AI provider configured"),
        other => panic!("unexpected {other:?}"),
    }
}

#[test]
fn provider_and_model_bodies_use_wire_names() {
    let providers = vec![
        ProviderInfo {
            provider_type: AiProvider::OpenAI,
            display_name: "OpenAI".to_string(),
            is_enabled: true,
            priority: 1,
        },
        ProviderInfo {
            provider_type: AiProvider::Zhipu,
            display_name: "Zhipu".to_string(),
            is_enabled: false,
            priority: 3,
        },
    ];
    let bodies = provider_bodies(providers);
    assert_eq!(bodies.len(), 2);
    assert_eq!(bodies[0].provider_type, "open_a_i");
    assert_eq!(bodies[0].display_name, "OpenAI");
    assert!(bodies[0].is_enabled);
    assert_eq!(bodies[0].priority, 1);
    assert_eq!(bodies[1].provider_type, "zhipu");
    assert!(!bodies[1].is_enabled);
    assert_eq!(bodies[1].priority, 3);

    let models = vec![ModelInfo {
        id: "gpt-4o".to_string(),
        display_name: "GPT-4o".to_string(),
        provider: AiProvider::Anthropic,
    }];
    let bodies = model_bodies(models);
    assert_eq!(bodies.len(), 1);
    assert_eq!(bodies[0].id, "gpt-4o");
    assert_eq!(bodies[0].display_name, "GPT-4o");
    assert_eq!(bodies[0].provider, "anthropic");
}

#[test]
fn provider_type_text_reads_back() {
    assert_eq!(provider_from_type_text("\"ollama\""), AiProvider::Ollama);
    assert_eq!(provider_from_type_text("\"open_a_i\""), AiProvider::OpenAI);
    assert_eq!(provider_from_type_text("\"nobody\""), AiProvider::Custom);
    assert_eq!(provider_from_type_text("ollama"), AiProvider::Custom);
    let info = provider_info_from_row("\"google\"", "Google".to_string(), 1, 4);
    assert_eq!(info.provider_type, AiProvider::Google);
    assert_eq!(info.display_name, "Google");
    assert!(info.is_enabled);
    assert_eq!(info.priority, 4);
    let info = provider_info_from_row("\"google\"", "Google".to_string(), 0, 4);
    assert!(!info.is_enabled);
}

#[test]
fn diagnostics_response_keeps_counts() {
    let report = DiagnosticReport {
        generated_at: "2024-01-01T00:00:00+00:00".to_string(),
        health: SystemHealth { status: HealthStatus::Healthy, components: vec![], uptime_secs: 5 },
        active_sessions: 2,
        running_apps: 3,
        db_size_bytes: 4096,
    };
    let r = diagnostics_response(report);
    assert_eq!(r.generated_at, "2024-01-01T00:00:00+00:00");
    assert_eq!(r.active_sessions, 2);
    assert_eq!(r.running_apps, 3);
    assert_eq!(r.db_size_bytes, 4096);
}

#[test]
fn auth_context_holds_user_and_token() {
    let ctx = auth_context(UserId(parse_id(USER)), "abc");
    assert_eq!(ctx.user_id, UserId(parse_id(USER)));
    assert_eq!(ctx.session_token, "abc");
}

#[test]
fn ws_session_for_user_starts_unsubscribed() {
    let s = WsSession::for_user(UserId(parse_id(USER)));
    assert_eq!(s.user_id, Some(UserId(parse_id(USER))));
    assert!(s.subscriptions.is_empty());
    assert_eq!(s.id.0.len(), 36);
}

#[test]
fn ws_state_add_remove_session() {
    let mut sessions: Vec<WsSession> = Vec::new();
    let mut session = WsSession::new();
    let session_id = session.id.clone();
    session.subscribe(Channel::Apps);
    sessions.push(session);
    assert_eq!(sessions.len(), 1);
    remove_session_from(&mut sessions, &session_id);
    assert!(sessions.is_empty());
}

#[test]
fn removing_a_session_keeps_the_others_in_order() {
    let a = WsSession::new();
    let b = WsSession::new();
    let c = WsSession::new();
    let (ida, idb, idc) = (a.id.clone(), b.id.clone(), c.id.clone());
    let mut sessions = vec![a, b, c];
    remove_session_from(&mut sessions, &idb);
    assert_eq!(sessions.len(), 2);
    assert_eq!(sessions[0].id, ida);
    assert_eq!(sessions[1].id, idc);
    remove_session_from(&mut sessions, &idb);
    assert_eq!(sessions.len(), 2);
}

#[test]
fn dedup_subscriptions_lists_each_channel_once() {
    let mut s = WsSession::new();
    s.subscriptions = vec![Channel::Apps, Channel::Files, Channel::Apps, Channel::Ai, Channel::Files];
    s.dedup_subscriptions();
    assert_eq!(s.subscriptions, vec![Channel::Apps, Channel::Files, Channel::Ai]);
    assert!(s.is_subscribed(&Channel::Ai));
    assert!(!s.is_subscribed(&Channel::System));
}
