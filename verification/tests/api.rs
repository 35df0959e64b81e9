use cortexos::ai::error::AiError;
use cortexos::ai::types::{ChatMessage, ChatResponse, ChatRole, TokenUsage};
use cortexos::api::bus::{
    duplicate_command_error, publish_failure, publish_status, AckPayload, BusCommand, BusError,
    BusMessageType, Channel, EventStatus, EVENT_AI_CHAT_STARTED, EVENT_APP_LAUNCHED,
    EVENT_APP_STOPPED, EVENT_FILE_CREATED, EVENT_FILE_DELETED, EVENT_NOTIFICATION_CREATED,
    EVENT_SESSION_CREATED, EVENT_SETTINGS_CHANGED, EVENT_SYSTEM_HEALTH, EVENT_WINDOW_CREATED,
    EVENT_WINDOW_FOCUSED, EVENT_WINDOW_UPDATED, EVENT_WM_WORKSPACE_CHANGED,
};
use cortexos::api::error::ApiError;
use cortexos::api::middleware::auth::{extract_bearer_token, missing_token_error, session_check_error};
use cortexos::api::middleware::cors::{cors_headers, CorsConfig};
use cortexos::api::middleware::logging::RequestLog;
use cortexos::api::routes::ai::{chat_error, chat_messages, chat_response_body, ChatMessageBody};
use cortexos::api::routes::auth::{
    change_password_error, login_error, profile_error, session_cookie_value,
    validate_session_error,
};
use cortexos::api::routes::files::{base64_decode, base64_encode, write_request_data, WriteFileRequest};
use cortexos::api::ws::{
    acknowledge, command_to_channel, command_to_event_name, handle_client_frame,
    wm_command_to_event, FrameOutcome, WsClientFrame, WsServerFrame, WsSession,
};
use cortexos::auth::error::AuthError;
use cortexos::base::types::AiProvider;
use cortexos::db::error::DbError;
use cortexos::ErrorCategory;

// -- errors --

#[test]
fn unauthorized_to_cortex_error() {
    let err = ApiError::Unauthorized("missing token".to_string());
    let cortex_err = err.to_cortex_error();
    assert_eq!(cortex_err.error.code, "AUTH_001");
    assert_eq!(cortex_err.error.category, ErrorCategory::Auth);
    assert_eq!(cortex_err.error.message, "missing token");
    assert!(!cortex_err.error.retryable);
}

#[test]
fn forbidden_to_cortex_error() {
    let err = ApiError::Forbidden("admin only".to_string());
    let cortex_err = err.to_cortex_error();
    assert_eq!(cortex_err.error.code, "AUTH_002");
    assert_eq!(cortex_err.error.category, ErrorCategory::Auth);
    assert_eq!(cortex_err.error.message, "admin only");
}

#[test]
fn not_found_to_cortex_error() {
    let err = ApiError::NotFound("user 42".to_string());
    let cortex_err = err.to_cortex_error();
    assert_eq!(cortex_err.error.code, "NF_001");
    assert_eq!(cortex_err.error.category, ErrorCategory::NotFound);
    assert_eq!(cortex_err.error.message, "user 42");
}

#[test]
fn bad_request_to_cortex_error() {
    let err = ApiError::BadRequest("invalid json".to_string());
    let cortex_err = err.to_cortex_error();
    assert_eq!(cortex_err.error.code, "VAL_001");
    assert_eq!(cortex_err.error.category, ErrorCategory::Validation);
    assert_eq!(cortex_err.error.message, "invalid json");
}

#[test]
fn internal_to_cortex_error() {
    let err = ApiError::Internal("database connection lost".to_string());
    let cortex_err = err.to_cortex_error();
    assert_eq!(cortex_err.error.code, "PERM_001");
    assert_eq!(cortex_err.error.category, ErrorCategory::Permanent);
    assert_eq!(cortex_err.error.message, "database connection lost");
}

#[test]
fn error_display_messages() {
    assert_eq!(
        ApiError::Unauthorized("no auth".to_string()).to_message(),
        "unauthorized: no auth"
    );
    assert_eq!(
        ApiError::Forbidden("denied".to_string()).to_message(),
        "forbidden: denied"
    );
    assert_eq!(
        ApiError::NotFound("gone".to_string()).to_message(),
        "not found: gone"
    );
    assert_eq!(
        ApiError::BadRequest("bad".to_string()).to_message(),
        "bad request: bad"
    );
    assert_eq!(
        ApiError::Internal("oops".to_string()).to_message(),
        "internal error: oops"
    );
}

// -- auth middleware --

#[test]
fn extract_bearer_valid() {
    assert_eq!(extract_bearer_token("Bearer abc123"), Some("abc123"));
}

#[test]
fn extract_bearer_with_whitespace() {
    assert_eq!(extract_bearer_token("Bearer   abc123  "), Some("abc123"));
}

#[test]
fn extract_bearer_missing_prefix() {
    assert_eq!(extract_bearer_token("abc123"), None);
}

#[test]
fn extract_bearer_wrong_scheme() {
    assert_eq!(extract_bearer_token("Basic abc123"), None);
}

#[test]
fn extract_bearer_empty_token() {
    assert_eq!(extract_bearer_token("Bearer "), None);
}

#[test]
fn extract_bearer_empty_string() {
    assert_eq!(extract_bearer_token(""), None);
}

#[test]
fn session_check_failures_are_answered() {
    match session_check_error(&AuthError::SessionExpired) {
        ApiError::Unauthorized(m) => assert_eq!(m, "invalid or expired session"),
        _ => panic!("expected Unauthorized"),
    }
    match session_check_error(&AuthError::Internal("db".to_string())) {
        ApiError::Internal(m) => assert_eq!(m, "internal error: db"),
        _ => panic!("expected Internal"),
    }
    match missing_token_error() {
        ApiError::Unauthorized(m) => assert_eq!(m, "missing session token"),
        _ => panic!("expected Unauthorized"),
    }
}

// -- cors --

#[test]
fn default_config_allows_any_origin() {
    let config = CorsConfig::default();
    assert!(config.is_origin_allowed("https://example.com"));
    assert!(config.is_origin_allowed("http://localhost:3000"));
}

#[test]
fn restricted_origins() {
    let config = CorsConfig::new(vec![
        "https://example.com".to_string(),
        "http://localhost:3000".to_string(),
    ]);
    assert!(config.is_origin_allowed("https://example.com"));
    assert!(!config.is_origin_allowed("https://evil.com"));
}

#[test]
fn cors_headers_for_allowed_origin() {
    let config = CorsConfig::default();
    let headers = cors_headers(&config, "https://example.com").unwrap();
    assert_eq!(headers.access_control_allow_origin, "https://example.com");
    assert!(headers.access_control_allow_methods.contains("GET"));
    assert!(headers
        .access_control_allow_headers
        .contains("Authorization"));
}

#[test]
fn cors_headers_rejects_disallowed_origin() {
    let config = CorsConfig::new(vec!["https://example.com".to_string()]);
    assert!(cors_headers(&config, "https://evil.com").is_none());
}

#[test]
fn wildcard_allows_credentials_false() {
    let config = CorsConfig::default();
    let headers = cors_headers(&config, "*").unwrap();
    assert!(!headers.access_control_allow_credentials);
}

#[test]
fn cors_headers_join_lists() {
    let config = CorsConfig::default();
    let headers = cors_headers(&config, "https://a.example").unwrap();
    assert_eq!(
        headers.access_control_allow_methods,
        "GET, POST, PUT, DELETE, PATCH, OPTIONS"
    );
    assert_eq!(
        headers.access_control_allow_headers,
        "Content-Type, Authorization, X-Request-Id"
    );
    assert_eq!(headers.access_control_expose_headers, "X-Request-Id");
    assert_eq!(headers.access_control_max_age, 86400);
}

// -- logging --

#[test]
fn request_log_new() {
    let log = RequestLog::new("GET", "/api/v1/health", "req-001");
    assert_eq!(log.method, "GET");
    assert_eq!(log.path, "/api/v1/health");
    assert_eq!(log.request_id, "req-001");
    assert!(log.user_id.is_none());
}

#[test]
fn request_log_with_user_id() {
    let mut log = RequestLog::new("POST", "/api/v1/files", "req-002");
    log.with_user_id("user-123".to_string());
    assert_eq!(log.user_id.as_deref(), Some("user-123"));
}

#[test]
fn request_log_finish_does_not_panic() {
    let log = RequestLog::new("GET", "/api/v1/health", "req-003");
    log.finish(200);
}

#[test]
fn request_log_finish_summarises() {
    let mut log = RequestLog::new("GET", "/x", "req-004");
    assert_eq!(log.finish(404).user_id, "-");
    log.with_user_id("u".to_string());
    let done = log.finish(200);
    assert_eq!(done.user_id, "u");
    assert_eq!(done.status, 200);
    assert_eq!(done.method, "GET");
}

// -- bus --

#[test]
fn canonical_event_names_are_consistent() {
    assert!(EVENT_APP_LAUNCHED.starts_with("app."));
    assert!(EVENT_FILE_CREATED.starts_with("file."));
    assert!(EVENT_SETTINGS_CHANGED.starts_with("settings."));
    assert!(EVENT_NOTIFICATION_CREATED.starts_with("notification."));
    assert!(EVENT_WINDOW_CREATED.starts_with("window."));
    assert!(EVENT_AI_CHAT_STARTED.starts_with("ai."));
    assert!(EVENT_SYSTEM_HEALTH.starts_with("system."));
    assert!(EVENT_SESSION_CREATED.starts_with("session."));
}

#[test]
fn event_status_as_str() {
    assert_eq!(EventStatus::Published.as_str(), "published");
    assert_eq!(EventStatus::Failed.as_str(), "failed");
    assert_eq!(EventStatus::DeadLetter.as_str(), "dead_letter");
    assert_eq!(Channel::Notifications.wire_name(), "notifications");
}

#[test]
fn publish_persists_and_rejects_duplicate() {
    let failure = publish_failure("cmd-100", duplicate_command_error("cmd-100"));
    match &failure {
        BusError::Duplicate(id) => assert_eq!(id, "cmd-100"),
        _ => panic!("expected Duplicate error"),
    }
    assert_eq!(publish_status(&Err(failure)), EventStatus::Published);
    assert_eq!(publish_status(&Ok(())), EventStatus::Published);
}

#[test]
fn dead_letter_recording_and_retrieval() {
    let failure = publish_failure("cmd-300", DbError::Connection("closed".to_string()));
    assert_eq!(failure.to_message(), "database error: connection error: closed");
    assert_eq!(publish_status(&Err(failure)), EventStatus::DeadLetter);
    assert_eq!(
        publish_status(&Err(BusError::PublishFailed("x".to_string()))),
        EventStatus::DeadLetter
    );
}

// -- websocket --

#[test]
fn handle_ping_returns_pong() {
    let mut session = WsSession::new();
    let outcome = handle_client_frame(&mut session, WsClientFrame::Ping);
    match outcome {
        FrameOutcome::Reply(frames) => {
            assert_eq!(frames.len(), 1);
            assert!(matches!(frames[0], WsServerFrame::Pong));
        }
        _ => panic!("expected a reply"),
    }
}

#[test]
fn handle_subscribe_adds_channel() {
    let mut session = WsSession::new();
    let outcome = handle_client_frame(
        &mut session,
        WsClientFrame::Subscribe {
            channel: Channel::Apps,
        },
    );
    assert!(session.is_subscribed(&Channel::Apps));
    match outcome {
        FrameOutcome::Reply(frames) => {
            assert_eq!(frames.len(), 1);
            match &frames[0] {
                WsServerFrame::Message(m) => {
                    assert!(m.id.starts_with("sub-"));
                    assert!(matches!(
                        m.payload,
                        Some(AckPayload::Subscription { subscribed: true })
                    ));
                }
                _ => panic!("expected Message variant"),
            }
        }
        _ => panic!("expected a reply"),
    }
}

#[test]
fn handle_unsubscribe_removes_channel() {
    let mut session = WsSession::new();
    session.subscribe(Channel::Files);
    assert!(session.is_subscribed(&Channel::Files));

    let outcome = handle_client_frame(
        &mut session,
        WsClientFrame::Unsubscribe {
            channel: Channel::Files,
        },
    );
    assert!(!session.is_subscribed(&Channel::Files));
    match outcome {
        FrameOutcome::Reply(frames) => assert_eq!(frames.len(), 1),
        _ => panic!("expected a reply"),
    }
}

#[test]
fn handle_command_publishes_event() {
    let mut session = WsSession::new();
    let outcome = handle_client_frame(
        &mut session,
        WsClientFrame::Command(BusCommand {
            id: "cmd-42".to_string(),
            command: "app.launch".to_string(),
            payload: serde_json::Value::Null,
        }),
    );
    let pending = match outcome {
        FrameOutcome::Publish(p) => p,
        _ => panic!("expected a publish"),
    };
    assert_eq!(pending.event.event, "app.launched");
    assert_eq!(pending.event.channel, Channel::Apps);
    assert_eq!(pending.event.correlation_id.as_deref(), Some("cmd-42"));
    assert_eq!(pending.command_id, "cmd-42");
    let frames = acknowledge(pending.ack, EventStatus::Published);
    assert_eq!(frames.len(), 1);
    if let WsServerFrame::Message(msg) = &frames[0] {
        assert_eq!(msg.id, "cmd-42");
        assert_eq!(msg.message_type, BusMessageType::CommandResponse);
        match msg.payload.as_ref().expect("payload should be present") {
            AckPayload::Dispatch {
                dispatched, event, ..
            } => {
                assert!(*dispatched);
                assert_eq!(event, "app.launched");
            }
            _ => panic!("expected a dispatch payload"),
        }
    } else {
        panic!("expected Message variant");
    }
}

#[test]
fn handle_wm_command_dispatches() {
    let mut session = WsSession::new();
    let outcome = handle_client_frame(
        &mut session,
        WsClientFrame::Command(BusCommand {
            id: "cmd-wm-1".to_string(),
            command: "window.move".to_string(),
            payload: serde_json::Value::Null,
        }),
    );
    let pending = match outcome {
        FrameOutcome::Publish(p) => p,
        _ => panic!("expected a publish"),
    };
    assert_eq!(pending.event.event, "window.updated");
    assert_eq!(pending.event.channel, Channel::System);
    let frames = acknowledge(pending.ack, EventStatus::DeadLetter);
    if let WsServerFrame::Message(msg) = &frames[0] {
        assert_eq!(msg.id, "cmd-wm-1");
        match msg.payload.as_ref().unwrap() {
            AckPayload::Dispatch {
                dispatched,
                event,
                dead_lettered,
            } => {
                assert!(!*dispatched);
                assert!(*dead_lettered);
                assert_eq!(event, "window.updated");
            }
            _ => panic!("expected a dispatch payload"),
        }
    } else {
        panic!("expected Message variant");
    }
}

#[test]
fn handle_unknown_command_returns_error() {
    let mut session = WsSession::new();
    let outcome = handle_client_frame(
        &mut session,
        WsClientFrame::Command(BusCommand {
            id: "cmd-bad".to_string(),
            command: "foo.bar".to_string(),
            payload: serde_json::Value::Null,
        }),
    );
    match outcome {
        FrameOutcome::Reply(frames) => {
            assert_eq!(frames.len(), 1);
            if let WsServerFrame::Message(msg) = &frames[0] {
                assert_eq!(msg.id, "cmd-bad");
                assert_eq!(msg.message_type, BusMessageType::Error);
                let err = msg.error.as_ref().unwrap();
                assert_eq!(err.error.code, "VAL_001");
                assert_eq!(err.error.message, "unknown command: foo.bar");
            } else {
                panic!("expected Message variant");
            }
        }
        _ => panic!("expected a reply"),
    }
}

#[test]
fn session_default_creates_new_id() {
    let s1 = WsSession::default();
    let s2 = WsSession::default();
    assert_ne!(s1.id, s2.id);
    assert_eq!(s1.id.0.len(), 36);
    assert!(s1.user_id.is_none());
    assert!(s1.subscriptions.is_empty());
}

#[test]
fn subscribe_twice_keeps_one_entry() {
    let mut s = WsSession::new();
    assert!(s.subscribe(Channel::Ai));
    assert!(!s.subscribe(Channel::Ai));
    assert_eq!(s.subscriptions.len(), 1);
    assert!(s.unsubscribe(&Channel::Ai));
    assert!(!s.unsubscribe(&Channel::Ai));
    assert!(s.subscriptions.is_empty());
}

#[test]
fn command_to_event_name_mapping() {
    assert_eq!(command_to_event_name("app.launch"), EVENT_APP_LAUNCHED);
    assert_eq!(command_to_event_name("app.stop"), EVENT_APP_STOPPED);
    assert_eq!(command_to_event_name("file.create"), EVENT_FILE_CREATED);
    assert_eq!(command_to_event_name("file.delete"), EVENT_FILE_DELETED);
    assert_eq!(command_to_event_name("settings.change"), EVENT_SETTINGS_CHANGED);
    assert_eq!(command_to_event_name("window.move"), EVENT_WINDOW_UPDATED);
    assert_eq!(command_to_event_name("window.resize"), EVENT_WINDOW_UPDATED);
    assert_eq!(command_to_event_name("window.focus"), EVENT_WINDOW_FOCUSED);
    assert_eq!(command_to_event_name("workspace.switch"), EVENT_WM_WORKSPACE_CHANGED);
    assert_eq!(
        command_to_event_name("wm.workspace.activate"),
        EVENT_WM_WORKSPACE_CHANGED
    );
    assert_eq!(command_to_event_name("unknown.cmd"), "unknown");
}

#[test]
fn wm_command_to_event_mapping() {
    assert_eq!(wm_command_to_event("window.resize"), EVENT_WINDOW_UPDATED);
    assert_eq!(wm_command_to_event("app.launch"), "unknown");
}

#[test]
fn command_to_channel_mapping() {
    assert_eq!(command_to_channel("app.launch"), Channel::Apps);
    assert_eq!(command_to_channel("file.create"), Channel::Files);
    assert_eq!(command_to_channel("ai.chat_start"), Channel::Ai);
    assert_eq!(
        command_to_channel("notification.create"),
        Channel::Notifications
    );
    assert_eq!(command_to_channel("settings.change"), Channel::Settings);
    assert_eq!(command_to_channel("system.health"), Channel::System);
    assert_eq!(command_to_channel("window.move"), Channel::System);
    assert_eq!(command_to_channel("workspace.switch"), Channel::System);
}

// -- routes --

#[test]
fn session_cookie_is_http_only() {
    assert_eq!(
        session_cookie_value("abc"),
        "cortex_session=abc; HttpOnly; Secure; SameSite=Strict; Path=/"
    );
}

#[test]
fn auth_route_errors() {
    match login_error(&AuthError::PasswordTooWeak { min_length: 8 }) {
        ApiError::BadRequest(m) => assert_eq!(m, "password must be at least 8 characters"),
        _ => panic!("expected BadRequest"),
    }
    match login_error(&AuthError::InvalidCredentials) {
        ApiError::Unauthorized(m) => assert_eq!(m, "invalid credentials"),
        _ => panic!("expected Unauthorized"),
    }
    match change_password_error(&AuthError::InvalidCredentials) {
        ApiError::Unauthorized(m) => assert_eq!(m, "current password is incorrect"),
        _ => panic!("expected Unauthorized"),
    }
    match profile_error(&AuthError::UserNotFound) {
        ApiError::NotFound(m) => assert_eq!(m, "user not found"),
        _ => panic!("expected NotFound"),
    }
    match validate_session_error(&AuthError::UserNotFound) {
        ApiError::Internal(m) => assert_eq!(m, "user not found"),
        _ => panic!("expected Internal"),
    }
}

#[test]
fn ai_route_shapes() {
    let msgs = chat_messages(vec![
        ChatMessageBody {
            role: "system".to_string(),
            content: "be brief".to_string(),
        },
        ChatMessageBody {
            role: "whoever".to_string(),
            content: "hi".to_string(),
        },
    ]);
    assert_eq!(msgs[0].role, ChatRole::System);
    assert_eq!(msgs[1].role, ChatRole::User);
    let body = chat_response_body(ChatResponse {
        message: ChatMessage {
            role: ChatRole::Assistant,
            content: "hello".to_string(),
        },
        usage: TokenUsage::new(1, 2),
        model: "gpt-4o".to_string(),
        provider: AiProvider::OpenAI,
    });
    assert_eq!(body.message.role, "assistant");
    assert_eq!(body.provider, "open_a_i");
    assert_eq!(body.usage.total_tokens, 3);
    match chat_error(AiError::Timeout {
        provider: "anthropic".to_string(),
    }) {
        ApiError::Internal(m) => assert_eq!(m, "timeout waiting for anthropic"),
        _ => panic!("expected Internal"),
    }
    match chat_error(AiError::NoProviderConfigured) {
        ApiError::BadRequest(m) => assert_eq!(m, "no AI provider configured"),
        _ => panic!("expected BadRequest"),
    }
}

#[test]
fn file_content_travels_as_base64() {
    assert_eq!(base64_encode(b"hello"), "aGVsbG8=");
    assert_eq!(base64_decode("aGVsbG8=").unwrap(), b"hello".to_vec());
    let req = WriteFileRequest {
        path: "/home/a.txt".to_string(),
        content_base64: base64_encode(&[0, 255, 7]),
    };
    assert_eq!(write_request_data(&req).unwrap(), vec![0, 255, 7]);
    let bad = WriteFileRequest {
        path: "/home/a.txt".to_string(),
        content_base64: "!!".to_string(),
    };
    match write_request_data(&bad) {
        Err(ApiError::BadRequest(m)) => assert!(m.starts_with("invalid base64: ")),
        _ => panic!("expected BadRequest"),
    }
}
