use cortexos::admin::bundler::DiagnosticBundler;
use cortexos::admin::collector::{CollectorState, CollectorStep};
use cortexos::admin::constants::{
    DEFAULT_METRICS_INTERVAL_SECS, FACTORY_RESET_CONFIRMATION_TEXT, MAX_EXPORT_LOG_HOURS,
    METRICS_RING_BUFFER_CAPACITY,
};
use cortexos::admin::error::AdminError;
use cortexos::admin::health::{overall_status, ComponentHealth, HealthStatus};
use cortexos::admin::recovery::crash_handler::CrashHandler;
use cortexos::admin::recovery::factory_reset::{FactoryReset, FACTORY_RESET_STEP_COUNT};
use cortexos::admin::recovery::fs_check::{dirs_config_path, dirs_data_path, FsChecker, RepairAction};
use cortexos::admin::recovery::session::{clean_shutdown_state, clean_shutdown_state_at, was_clean_shutdown};
use cortexos::admin::redactor::redact_settings;
use cortexos::admin::ring_buffer::MetricRingBuffer;
use cortexos::admin::safe_mode::SafeMode;
use cortexos::admin::service::{
    backup_failure, backup_statement, check_backup_file, diagnostic_report, system_health,
    ExportedFile, SessionInfo,
};
use cortexos::admin::types::{
    CrashRecord, DiagnosticBundle, DiagnosticComponent, DiagnosticReport, ErrorCounts, ExportOptions,
    FsCheckItem, FsCheckResult, FsCheckStatus, MetricSample, SessionApp, SessionState,
    SystemHealth, SystemInfo,
};
use cortexos::db::error::DbError;

fn sample(ts: &str, cpu: f32) -> MetricSample {
    MetricSample {
        timestamp: ts.to_string(),
        cpu_percent_bits: cpu.to_bits(),
        memory_used_bytes: 4_000_000_000,
        memory_total_bytes: 16_000_000_000,
        swap_used_bytes: 0,
        swap_total_bytes: 8_000_000_000,
        running_app_count: 1,
        error_count: 0,
    }
}

fn cpu(s: &MetricSample) -> f32 {
    f32::from_bits(s.cpu_percent_bits)
}

fn test_system_info() -> SystemInfo {
    SystemInfo {
        os_version: "0.1.0".to_string(),
        kernel_version: "6.19.9".to_string(),
        hostname: "test-host".to_string(),
        architecture: "x86_64".to_string(),
        cpu_count: 8,
        total_memory_bytes: 16_000_000_000,
        uptime_seconds: 3600,
    }
}

fn only_settings() -> ExportOptions {
    ExportOptions {
        include_settings: true,
        include_logs: false,
        include_system_info: false,
        include_running_apps: false,
        include_permissions: false,
        include_ai_usage: false,
        include_crash_logs: false,
        ..ExportOptions::default()
    }
}

// -- constants --

#[test]
fn ring_buffer_capacity_matches_one_hour() {
    assert_eq!(
        METRICS_RING_BUFFER_CAPACITY,
        (3600 / DEFAULT_METRICS_INTERVAL_SECS) as usize
    );
}

#[test]
fn max_export_hours_is_seven_days() {
    assert_eq!(MAX_EXPORT_LOG_HOURS, 24 * 7);
}

#[test]
fn reset_confirmation_text() {
    assert_eq!(FACTORY_RESET_CONFIRMATION_TEXT, "RESET");
}

// -- errors --

#[test]
fn not_found_display() {
    let err = AdminError::NotFound("backup file".to_string());
    assert_eq!(err.to_message(), "not found: backup file");
}

#[test]
fn backup_failed_display() {
    let err = AdminError::BackupFailed("disk full".to_string());
    assert_eq!(err.to_message(), "backup failed: disk full");
}

#[test]
fn restore_failed_display() {
    let err = AdminError::RestoreFailed("corrupt archive".to_string());
    assert_eq!(err.to_message(), "restore failed: corrupt archive");
}

#[test]
fn internal_display() {
    let err = AdminError::Internal;
    assert_eq!(err.to_message(), "internal error");
}

#[test]
fn metrics_error_display() {
    let err = AdminError::MetricsError("collection failed".to_string());
    assert_eq!(err.to_message(), "metrics error: collection failed");
}

#[test]
fn session_error_display() {
    let err = AdminError::SessionError("corrupt state".to_string());
    assert_eq!(err.to_message(), "session error: corrupt state");
}

#[test]
fn export_failed_display() {
    let err = AdminError::ExportFailed("zip write".to_string());
    assert_eq!(err.to_message(), "export failed: zip write");
}

#[test]
fn factory_reset_failed_display() {
    let err = AdminError::FactoryResetFailed("step 5".to_string());
    assert_eq!(err.to_message(), "factory reset failed: step 5");
}

#[test]
fn crash_and_filesystem_error_display() {
    assert_eq!(
        AdminError::CrashError("x".to_string()).to_message(),
        "crash handler error: x"
    );
    assert_eq!(
        AdminError::FilesystemError("y".to_string()).to_message(),
        "filesystem error: y"
    );
}

// -- bundler --

#[test]
fn create_bundle_with_defaults() {
    let bundler = DiagnosticBundler::new();
    let opts = ExportOptions::default();
    let bundle = bundler
        .create_bundle(&opts, test_system_info(), None)
        .unwrap();
    assert!(!bundle.exported_at.is_empty());
    assert_eq!(bundle.included_components.len(), 6);
    assert!(bundle.total_size_bytes > 0);
}

#[test]
fn create_bundle_rejects_empty_components() {
    let bundler = DiagnosticBundler::new();
    let opts = ExportOptions {
        include_logs: false,
        include_system_info: false,
        include_running_apps: false,
        include_permissions: false,
        include_ai_usage: false,
        include_crash_logs: false,
        include_settings: false,
        ..ExportOptions::default()
    };
    let result = bundler.create_bundle(&opts, test_system_info(), None);
    assert!(result.is_err());
    match result.unwrap_err() {
        AdminError::ExportFailed(msg) => {
            assert!(msg.contains("at least one component"));
        }
        other => panic!("expected ExportFailed, got: {}", other.to_message()),
    }
}

#[test]
fn create_bundle_rejects_excessive_log_hours() {
    let bundler = DiagnosticBundler::new();
    let opts = ExportOptions {
        log_hours: 200,
        ..ExportOptions::default()
    };
    let result = bundler.create_bundle(&opts, test_system_info(), None);
    assert!(result.is_err());
}

#[test]
fn create_bundle_with_settings_redaction() {
    let bundler = DiagnosticBundler::new();
    let opts = only_settings();
    let settings = r#"{"api_key": "sk-secret123", "theme": "dark"}"#;
    let bundle = bundler
        .create_bundle(&opts, test_system_info(), Some(settings))
        .unwrap();
    assert_eq!(bundle.included_components.len(), 1);
}

#[test]
fn estimate_size_is_nonzero() {
    let bundler = DiagnosticBundler::new();
    let opts = ExportOptions::default();
    let size = bundler.estimate_size(&opts, None);
    assert!(size > 0);
}

#[test]
fn estimate_size_reflects_log_hours() {
    let bundler = DiagnosticBundler::new();
    let opts_small = ExportOptions {
        log_hours: 1,
        ..ExportOptions::default()
    };
    let opts_large = ExportOptions {
        log_hours: 168,
        ..ExportOptions::default()
    };
    let small = bundler.estimate_size(&opts_small, None);
    let large = bundler.estimate_size(&opts_large, None);
    assert!(large > small);
}

#[test]
fn estimate_size_includes_settings_json() {
    let bundler = DiagnosticBundler::new();
    let opts = only_settings();
    let with_settings = bundler.estimate_size(
        &opts,
        Some("{\"key\": \"very_long_value_here_that_adds_bytes\"}"),
    );
    let without_settings = bundler.estimate_size(
        &ExportOptions {
            include_settings: false,
            ..opts.clone()
        },
        None,
    );
    assert!(with_settings > without_settings);
}

#[test]
fn estimate_size_exact_for_settings_only() {
    let bundler = DiagnosticBundler::new();
    let opts = only_settings();
    let json = "{\"a\": 1}";
    let with = bundler.estimate_size(&opts, Some(json));
    let without = bundler.estimate_size(&opts, None);
    assert_eq!(with, json.len() as u64);
    assert_eq!(without, 4096);
}

// -- redactor --

#[test]
fn redacts_api_key() {
    let input = r#"{"api_key": "sk-abc123def456"}"#;
    let output = redact_settings(input);
    assert!(output.contains("\"api_key\": \"[REDACTED]\""));
    assert!(!output.contains("sk-abc123def456"));
}

#[test]
fn redacts_password() {
    let input = r#"{"password": "hunter2", "username": "admin"}"#;
    let output = redact_settings(input);
    assert!(output.contains("\"password\": \"[REDACTED]\""));
    assert!(output.contains("\"username\": \"admin\""));
}

#[test]
fn redacts_token() {
    let input = r#"{"access_token": "eyJhbGciOiJIUzI1NiJ9"}"#;
    let output = redact_settings(input);
    assert!(output.contains("\"access_token\": \"[REDACTED]\""));
}

#[test]
fn redacts_secret_case_insensitive() {
    let input = r#"{"Secret": "my_secret_value"}"#;
    let output = redact_settings(input);
    assert!(output.contains("\"Secret\": \"[REDACTED]\""));
}

#[test]
fn redacts_auth_header() {
    let input = r#"{"auth": "Bearer abc123"}"#;
    let output = redact_settings(input);
    assert!(output.contains("\"auth\": \"[REDACTED]\""));
}

#[test]
fn redacts_credential() {
    let input = r#"{"credential": "user:pass"}"#;
    let output = redact_settings(input);
    assert!(output.contains("\"credential\": \"[REDACTED]\""));
}

#[test]
fn preserves_non_sensitive_keys() {
    let input = r#"{"theme": "dark", "fontSize": 14, "language": "en"}"#;
    let output = redact_settings(input);
    assert_eq!(output, input);
}

#[test]
fn redacts_multiple_keys() {
    let input = r#"{"api_key": "sk-123", "theme": "dark", "password": "pass", "username": "user"}"#;
    let output = redact_settings(input);
    assert!(output.contains("\"api_key\": \"[REDACTED]\""));
    assert!(output.contains("\"password\": \"[REDACTED]\""));
    assert!(output.contains("\"theme\": \"dark\""));
    assert!(output.contains("\"username\": \"user\""));
}

#[test]
fn redacts_nested_json() {
    let input = r#"{"ai": {"provider": "openai", "api_key": "sk-test"}, "ui": {"theme": "light"}}"#;
    let output = redact_settings(input);
    assert!(output.contains("\"api_key\": \"[REDACTED]\""));
    assert!(output.contains("\"provider\": \"openai\""));
    assert!(output.contains("\"theme\": \"light\""));
}

#[test]
fn handles_empty_json() {
    let input = "{}";
    let output = redact_settings(input);
    assert_eq!(output, "{}");
}

#[test]
fn handles_plain_text() {
    let input = "No JSON here, just text";
    let output = redact_settings(input);
    assert_eq!(output, input);
}

#[test]
fn redacts_key_in_compound_name() {
    let input = r#"{"my_api_key_here": "secret123"}"#;
    let output = redact_settings(input);
    assert!(output.contains("\"my_api_key_here\": \"[REDACTED]\""));
}

#[test]
fn redacts_numerical_secret_value() {
    let input = r#"{"secret": 12345}"#;
    let output = redact_settings(input);
    assert!(output.contains("[REDACTED]"));
    assert!(!output.contains("12345"));
}

#[test]
fn redaction_keeps_the_json_structure() {
    assert_eq!(
        redact_settings(r#"{"api_key": "sk-abc123def456"}"#),
        r#"{"api_key": "[REDACTED]"}"#
    );
    assert_eq!(redact_settings(r#"{"secret": 12345}"#), r#"{"secret": "[REDACTED]"}"#);
    assert_eq!(
        redact_settings(r#"{"token": true, "theme": "dark", "apiKey": null}"#),
        r#"{"token": "[REDACTED]", "theme": "dark", "apiKey": "[REDACTED]"}"#
    );
    assert_eq!(
        redact_settings(r#"{"auth": {"user": "a", "pin": 1}, "theme": "dark"}"#),
        r#"{"auth": "[REDACTED]", "theme": "dark"}"#
    );
    assert_eq!(
        redact_settings(r#"{"tokens": ["a", "b"], "size": 2}"#),
        r#"{"tokens": "[REDACTED]", "size": 2}"#
    );
    assert_eq!(
        redact_settings(r#"{"ai": {"provider": "openai", "api_key": "sk-test"}, "ui": {"theme": "light"}}"#),
        r#"{"ai": {"provider": "openai", "api_key": "[REDACTED]"}, "ui": {"theme": "light"}}"#
    );
}

// -- ring buffer --

#[test]
fn new_buffer_is_empty() {
    let buf = MetricRingBuffer::new(10);
    assert!(buf.is_empty());
    assert_eq!(buf.len(), 0);
    assert!(buf.latest().is_none());
}

#[test]
fn push_and_latest() {
    let mut buf = MetricRingBuffer::new(10);
    buf.push(sample("2026-03-30T12:00:00Z", 10.0));
    buf.push(sample("2026-03-30T12:00:05Z", 20.0));
    assert_eq!(buf.len(), 2);
    let latest = buf.latest().unwrap();
    assert_eq!(cpu(latest), 20.0);
}

#[test]
fn push_over_capacity_discards_oldest() {
    let mut buf = MetricRingBuffer::new(3);
    buf.push(sample("2026-03-30T12:00:00Z", 10.0));
    buf.push(sample("2026-03-30T12:00:05Z", 20.0));
    buf.push(sample("2026-03-30T12:00:10Z", 30.0));
    assert_eq!(buf.len(), 3);

    buf.push(sample("2026-03-30T12:00:15Z", 40.0));
    assert_eq!(buf.len(), 3);

    let latest = buf.latest().unwrap();
    assert_eq!(cpu(latest), 40.0);

    let timestamps: Vec<&str> = buf.samples().iter().map(|s| s.timestamp.as_str()).collect();
    assert!(!timestamps.contains(&"2026-03-30T12:00:00Z"));
    assert!(timestamps.contains(&"2026-03-30T12:00:05Z"));
}

#[test]
fn range_filters_by_timestamp() {
    let mut buf = MetricRingBuffer::new(10);
    buf.push(sample("2026-03-30T12:00:00Z", 10.0));
    buf.push(sample("2026-03-30T12:00:05Z", 20.0));
    buf.push(sample("2026-03-30T12:00:10Z", 30.0));
    buf.push(sample("2026-03-30T12:00:15Z", 40.0));

    let result = buf.range("2026-03-30T12:00:05Z", "2026-03-30T12:00:10Z");
    assert_eq!(result.len(), 2);
    assert_eq!(cpu(result[0]), 20.0);
    assert_eq!(cpu(result[1]), 30.0);
}

#[test]
fn range_returns_empty_if_no_match() {
    let mut buf = MetricRingBuffer::new(10);
    buf.push(sample("2026-03-30T12:00:00Z", 10.0));
    let result = buf.range("2099-01-01T00:00:00Z", "2099-01-01T23:59:59Z");
    assert!(result.is_empty());
}

#[test]
fn drain_all_returns_and_clears() {
    let mut buf = MetricRingBuffer::new(10);
    buf.push(sample("2026-03-30T12:00:00Z", 10.0));
    buf.push(sample("2026-03-30T12:00:05Z", 20.0));
    let drained = buf.drain_all();
    assert_eq!(drained.len(), 2);
    assert!(buf.is_empty());
}

#[test]
fn clear_empties_buffer() {
    let mut buf = MetricRingBuffer::new(10);
    buf.push(sample("2026-03-30T12:00:00Z", 10.0));
    buf.clear();
    assert!(buf.is_empty());
}

#[test]
fn default_capacity_is_720() {
    let buf = MetricRingBuffer::with_default_capacity();
    assert_eq!(buf.capacity(), 720);
}

#[test]
fn ring_buffer_keeps_latest_after_many_pushes() {
    let mut buf = MetricRingBuffer::new(2);
    for i in 0..5u32 {
        buf.push(sample(&format!("2026-03-30T12:00:0{i}Z"), i as f32));
    }
    let kept: Vec<f32> = buf.samples().iter().map(|s| cpu(s)).collect();
    assert_eq!(kept, vec![3.0, 4.0]);
    assert_eq!(buf.capacity(), 2);
}

#[test]
fn ring_buffer_range_bounds_are_inclusive() {
    let mut buf = MetricRingBuffer::new(5);
    buf.push(sample("2026-03-30T12:00:00Z", 1.0));
    buf.push(sample("2026-03-30T12:00:05Z", 2.0));
    let r = buf.range("2026-03-30T12:00:05Z", "2026-03-30T12:00:05Z");
    assert_eq!(r.len(), 1);
    assert_eq!(cpu(r[0]), 2.0);
}

// -- collector policy --

#[test]
fn collector_resets_on_success_and_stops_after_ten_failures() {
    let mut state = CollectorState::new();
    for _ in 0..9 {
        let (next, step) = state.after_sample(false);
        assert!(matches!(step, CollectorStep::Skip));
        state = next;
    }
    assert_eq!(state.consecutive_failures, 9);
    let (reset, step) = state.after_sample(true);
    assert!(matches!(step, CollectorStep::Record));
    assert_eq!(reset.consecutive_failures, 0);
    let (last, step) = state.after_sample(false);
    assert_eq!(last.consecutive_failures, 10);
    match step {
        CollectorStep::Stop(e) => assert_eq!(
            e.to_message(),
            "metrics error: 10 consecutive failures, collector disabled"
        ),
        _ => panic!("expected the collector to stop"),
    }
}

// -- crash handler --

#[test]
fn record_crash_creates_record() {
    let handler = CrashHandler::new();
    let record = handler.new_record(
        "com.cortexos.settings",
        "Settings",
        139,
        Some(11),
        "/var/log/cortexos/crash_settings.log",
        0,
    );
    assert_eq!(record.app_id, "com.cortexos.settings");
    assert_eq!(record.exit_code, 139);
    assert_eq!(record.signal, Some(11));
    assert_eq!(record.auto_restart_attempts, 0);
    assert_eq!(
        record.crash_log_path.to_str().unwrap(),
        "/var/log/cortexos/crash_settings.log"
    );
}

#[test]
fn auto_restart_allowed_under_limit() {
    let handler = CrashHandler::with_max_attempts(3);
    assert!(handler.should_auto_restart(0));
    assert!(handler.should_auto_restart(2));
    assert!(!handler.should_auto_restart(3));
    assert_eq!(CrashHandler::new().max_restart_attempts(), 3);
}

#[test]
fn crash_log_path_returns_expected_path() {
    let handler = CrashHandler::new();
    let path = handler.crash_log_path("com.cortexos.settings");
    assert_eq!(
        path.to_str().unwrap(),
        "/var/log/cortexos/crash_com.cortexos.settings.log"
    );
}

// -- factory reset --

#[test]
fn validate_confirmation_accepts_reset() {
    assert!(FactoryReset::validate_confirmation("RESET"));
}

#[test]
fn validate_confirmation_rejects_wrong_text() {
    assert!(!FactoryReset::validate_confirmation("reset"));
    assert!(!FactoryReset::validate_confirmation("Reset"));
    assert!(!FactoryReset::validate_confirmation(""));
    assert!(!FactoryReset::validate_confirmation("RESET "));
}

#[test]
fn execute_runs_all_steps() {
    let outcomes: Vec<Result<(), String>> = (0..FACTORY_RESET_STEP_COUNT).map(|_| Ok(())).collect();
    let result = FactoryReset::summarize(&outcomes);
    assert_eq!(result.steps.len(), 12);
    assert!(result.all_succeeded);
    assert_eq!(result.succeeded_count, 12);
    assert_eq!(result.failed_count, 0);
    assert_eq!(result.steps[0].name, "Stop all running apps");
    assert_eq!(result.steps[11].name, "Restart system");
    assert_eq!(result.steps[11].step, 12);
}

#[test]
fn factory_reset_failed_steps_are_counted() {
    let mut outcomes: Vec<Result<(), String>> = (0..FACTORY_RESET_STEP_COUNT).map(|_| Ok(())).collect();
    outcomes[3] = Err("no such table".to_string());
    let result = FactoryReset::summarize(&outcomes);
    assert!(!result.all_succeeded);
    assert_eq!(result.succeeded_count, 11);
    assert_eq!(result.failed_count, 1);
    assert!(!result.steps[3].success);
    assert_eq!(result.steps[3].error.as_deref(), Some("no such table"));
    assert_eq!(result.steps[3].name, "Delete AI conversation history");
}

// -- filesystem check --

#[test]
fn verify_returns_result() {
    let ok: Result<i64, DbError> = Ok(0);
    let ok2: Result<i64, DbError> = Ok(3);
    let result = FsChecker::verify("/missing/config", false, "/data", true, &ok, &ok2);
    assert!(result.total_checked >= 4);
    assert_eq!(result.passed, 3);
    assert_eq!(result.warnings, 1);
    assert_eq!(result.items[2].message, "App registry has 0 entries");
    assert_eq!(result.items[3].message, "Settings table has 3 entries");
}

#[test]
fn fs_check_reports_query_failures() {
    let bad: Result<i64, DbError> = Err(DbError::Query("no such table".to_string()));
    let item = FsChecker::check_settings(&bad);
    assert_eq!(item.status, FsCheckStatus::Error);
    assert_eq!(item.message, "Settings query failed: query error: no such table");
    let item = FsChecker::check_app_registry(&Ok(-2));
    assert_eq!(item.message, "App registry has -2 entries");
}

#[test]
fn repair_non_repairable_fails() {
    let items = vec![FsCheckItem {
        check_name: "app_registry".to_string(),
        path: "sqlite://app_instances".to_string(),
        status: FsCheckStatus::Error,
        message: "broken".to_string(),
        repairable: false,
    }];
    let result = FsChecker::repair(&items, &vec![Ok(())]);
    assert_eq!(result.errors, 1);
    assert_eq!(result.items[0].message, "Not repairable: broken");
}

#[test]
fn repair_config_dir_creates_directory() {
    let path_str = "/tmp/cortexos-check/missing_config".to_string();
    let items = vec![FsCheckItem {
        check_name: "config_dir".to_string(),
        path: path_str.clone(),
        status: FsCheckStatus::Warning,
        message: "missing".to_string(),
        repairable: true,
    }];
    assert_eq!(FsChecker::repair_action(&items[0]), RepairAction::CreateConfigDir);
    let result = FsChecker::repair(&items, &vec![Ok(())]);
    assert_eq!(result.passed, 1);
    assert_eq!(result.items[0].path, path_str);
}

#[test]
fn repair_outcomes_shape_items() {
    let items = vec![
        FsCheckItem {
            check_name: "config_dir".to_string(),
            path: "/x".to_string(),
            status: FsCheckStatus::Warning,
            message: "missing".to_string(),
            repairable: true,
        },
        FsCheckItem {
            check_name: "app_data_dir".to_string(),
            path: "/y".to_string(),
            status: FsCheckStatus::Warning,
            message: "missing".to_string(),
            repairable: true,
        },
        FsCheckItem {
            check_name: "other".to_string(),
            path: "/z".to_string(),
            status: FsCheckStatus::Warning,
            message: "odd".to_string(),
            repairable: true,
        },
    ];
    assert_eq!(FsChecker::repair_action(&items[0]), RepairAction::CreateConfigDir);
    assert_eq!(FsChecker::repair_action(&items[2]), RepairAction::NoHandler);
    let result = FsChecker::repair(
        &items,
        &vec![Ok(()), Err("permission denied".to_string()), Ok(())],
    );
    assert_eq!(result.passed, 1);
    assert_eq!(result.errors, 2);
    assert_eq!(result.items[0].message, "Repaired successfully");
    assert_eq!(
        result.items[1].message,
        "Repair failed: filesystem error: cannot create app data dir: permission denied"
    );
    assert_eq!(
        result.items[2].message,
        "Repair failed: filesystem error: no repair handler for: other"
    );
    assert!(result.items[2].repairable);
}

#[test]
fn xdg_directories_fall_back_to_home() {
    assert_eq!(dirs_config_path(Some("/cfg"), Some("/home/a")), "/cfg/cortexos");
    assert_eq!(dirs_config_path(None, Some("/home/a")), "/home/a/.config/cortexos");
    assert_eq!(dirs_data_path(None, None), "/tmp/.local/share/cortexos");
}

// -- session recovery --

fn one_app_state(clean: bool) -> SessionState {
    SessionState {
        version: 1,
        clean_shutdown: clean,
        saved_at: "2026-03-30T12:00:00Z".to_string(),
        apps: vec![SessionApp {
            app_id: "com.cortexos.notes".to_string(),
            window_x: 0,
            window_y: 0,
            window_width: 900,
            window_height: 600,
            was_focused: true,
        }],
    }
}

#[test]
fn mark_clean_shutdown() {
    let saved = one_app_state(false);
    assert!(!was_clean_shutdown(Ok(Some(saved.clone()))).unwrap());
    let marked = clean_shutdown_state(Ok(Some(saved))).unwrap();
    assert!(was_clean_shutdown(Ok(Some(marked.clone()))).unwrap());
    assert!(marked.clean_shutdown);
    assert_eq!(marked.apps.len(), 1);
}

#[test]
fn was_clean_shutdown_true_when_no_state() {
    assert!(was_clean_shutdown(Ok(None)).unwrap());
    assert!(clean_shutdown_state(Ok(None)).is_none());
}

#[test]
fn mark_clean_replaces_unreadable_state() {
    let marked = clean_shutdown_state_at(
        Err(AdminError::SessionError("corrupt".to_string())),
        "2026-03-30T13:00:00Z".to_string(),
    )
    .unwrap();
    assert_eq!(marked.version, 1);
    assert!(marked.clean_shutdown);
    assert_eq!(marked.saved_at, "2026-03-30T13:00:00Z");
    assert!(marked.apps.is_empty());
    assert!(was_clean_shutdown(Err(AdminError::Internal)).is_err());
}

// -- safe mode --

#[test]
fn is_safe_mode_false_when_no_flag() {
    let dir = tempfile::tempdir().unwrap();
    let sm = SafeMode::with_flag_path(dir.path().join("safe_mode"));
    assert!(!sm.is_safe_mode());
    assert_eq!(sm.flag_path(), &dir.path().join("safe_mode"));
}

#[test]
fn filter_first_party_apps() {
    let dir = tempfile::tempdir().unwrap();
    let sm = SafeMode::with_flag_path(dir.path().join("safe_mode"));

    let apps = vec![
        "com.cortexos.settings".to_string(),
        "com.cortexos.file-manager".to_string(),
        "com.cortexos.calculator".to_string(),
        "com.example.third-party".to_string(),
        "com.cortexos.terminal-lite".to_string(),
    ];

    let filtered = sm.filter_first_party_apps(&apps);
    assert_eq!(filtered.len(), 3);
    assert!(filtered.contains(&&"com.cortexos.settings".to_string()));
    assert!(filtered.contains(&&"com.cortexos.file-manager".to_string()));
    assert!(filtered.contains(&&"com.cortexos.terminal-lite".to_string()));
    assert!(!filtered.contains(&&"com.cortexos.calculator".to_string()));
}

// -- service --

#[test]
fn session_info_construction() {
    let info = SessionInfo {
        session_id: "sess-001".to_string(),
        user_id: "user-123".to_string(),
        created_at: "2026-03-30T10:00:00Z".to_string(),
        last_active_at: "2026-03-30T10:05:00Z".to_string(),
        ip_address: Some("192.168.1.1".to_string()),
    };
    assert_eq!(info.session_id, "sess-001");
    assert_eq!(info.user_id, "user-123");
    assert_eq!(info.ip_address, Some("192.168.1.1".to_string()));
}

#[test]
fn session_info_without_ip() {
    let info = SessionInfo {
        session_id: "sess-002".to_string(),
        user_id: "user-456".to_string(),
        created_at: "2026-03-30T11:00:00Z".to_string(),
        last_active_at: "2026-03-30T11:00:30Z".to_string(),
        ip_address: None,
    };
    assert!(info.ip_address.is_none());
}

#[test]
fn health_returns_healthy() {
    let health = system_health(&Ok(()), 12);
    assert_eq!(health.status, HealthStatus::Healthy);
    assert_eq!(health.components.len(), 1);
    assert_eq!(health.components[0].name, "database");
    assert_eq!(health.uptime_secs, 12);
}

#[test]
fn health_reports_unhealthy_database() {
    let health = system_health(&Err(DbError::Connection("gone".to_string())), 0);
    assert_eq!(
        health.components[0].status,
        HealthStatus::Unhealthy("internal error".to_string())
    );
    assert_eq!(
        health.status,
        HealthStatus::Unhealthy("one or more components unhealthy".to_string())
    );
}

#[test]
fn overall_status_degrades() {
    let comps = vec![
        ComponentHealth {
            name: "database".to_string(),
            status: HealthStatus::Healthy,
            latency_ms: Some(5),
        },
        ComponentHealth {
            name: "filesystem".to_string(),
            status: HealthStatus::Degraded("slow disk".to_string()),
            latency_ms: Some(120),
        },
    ];
    assert_eq!(
        overall_status(&comps),
        HealthStatus::Degraded("one or more components degraded".to_string())
    );
}

#[test]
fn diagnostics_returns_report() {
    let report = diagnostic_report(system_health(&Ok(()), 1), 2, 3);
    assert_eq!(report.active_sessions, 2);
    assert_eq!(report.running_apps, 3);
    assert_eq!(report.db_size_bytes, 0);
    assert!(!report.generated_at.is_empty());
}

#[test]
fn backup_fails_with_invalid_path() {
    assert_eq!(
        backup_statement("/nonexistent/dir/'backup.db"),
        "VACUUM INTO '/nonexistent/dir/'backup.db';"
    );
    match backup_failure("unrecognized token") {
        AdminError::BackupFailed(msg) => {
            assert!(msg.contains("VACUUM INTO"));
            assert_eq!(msg, "query error: VACUUM INTO failed: unrecognized token");
        }
        other => panic!("expected BackupFailed, got: {}", other.to_message()),
    }
}

#[test]
fn restore_fails_for_missing_file() {
    match check_backup_file("/nonexistent/path/backup.db", false, &None) {
        Err(AdminError::RestoreFailed(msg)) => assert!(msg.contains("backup file not found")),
        _ => panic!("expected RestoreFailed"),
    }
    assert!(check_backup_file("/b", true, &Some(Ok(10))).is_ok());
    match check_backup_file("/b", true, &Some(Ok(0))) {
        Err(AdminError::RestoreFailed(msg)) => assert_eq!(msg, "backup file is empty"),
        _ => panic!("expected RestoreFailed"),
    }
}

#[test]
fn exported_file_flags() {
    let f = ExportedFile::from_row(
        "file-1".to_string(),
        None,
        "test.txt".to_string(),
        0,
        5,
        "text/plain".to_string(),
        "user-1".to_string(),
        "t0".to_string(),
        "t1".to_string(),
    );
    assert!(!f.is_directory);
    assert_eq!(f.size_bytes, 5);
}

// -- types --

#[test]
fn system_health_construction() {
    let health = SystemHealth {
        status: HealthStatus::Healthy,
        components: vec![
            ComponentHealth {
                name: "database".to_string(),
                status: HealthStatus::Healthy,
                latency_ms: Some(5),
            },
            ComponentHealth {
                name: "filesystem".to_string(),
                status: HealthStatus::Degraded("slow disk".to_string()),
                latency_ms: Some(120),
            },
        ],
        uptime_secs: 86400,
    };
    assert_eq!(health.uptime_secs, 86400);
    assert_eq!(health.components.len(), 2);
}

#[test]
fn diagnostic_report_construction() {
    let report = DiagnosticReport {
        generated_at: "2026-03-30T12:00:00Z".to_string(),
        health: SystemHealth {
            status: HealthStatus::Healthy,
            components: vec![],
            uptime_secs: 86400,
        },
        active_sessions: 5,
        running_apps: 3,
        db_size_bytes: 1024 * 1024 * 512,
    };
    assert_eq!(report.active_sessions, 5);
    assert_eq!(report.running_apps, 3);
    assert_eq!(report.db_size_bytes, 536870912);
}

#[test]
fn metric_sample_construction() {
    let sample = MetricSample {
        timestamp: "2026-03-30T12:00:00Z".to_string(),
        cpu_percent_bits: 45.2f32.to_bits(),
        memory_used_bytes: 4_000_000_000,
        memory_total_bytes: 16_000_000_000,
        swap_used_bytes: 0,
        swap_total_bytes: 8_000_000_000,
        running_app_count: 7,
        error_count: 0,
    };
    assert_eq!(f32::from_bits(sample.cpu_percent_bits), 45.2);
    assert_eq!(sample.running_app_count, 7);
}

#[test]
fn session_state_construction() {
    let state = SessionState {
        version: 1,
        clean_shutdown: false,
        saved_at: "2026-03-30T12:00:00Z".to_string(),
        apps: vec![
            SessionApp {
                app_id: "com.cortexos.settings".to_string(),
                window_x: 100,
                window_y: 100,
                window_width: 800,
                window_height: 600,
                was_focused: true,
            },
            SessionApp {
                app_id: "com.cortexos.file-manager".to_string(),
                window_x: 200,
                window_y: 200,
                window_width: 900,
                window_height: 600,
                was_focused: false,
            },
        ],
    };
    assert!(!state.clean_shutdown);
    assert_eq!(state.apps.len(), 2);
    assert!(state.apps[0].was_focused);
    assert_eq!(state.apps[1].window_width, 900);
}

#[test]
fn fs_check_result_from_items() {
    let items = vec![
        FsCheckItem {
            check_name: "config_exists".to_string(),
            path: "/etc/cortexos/config.json".to_string(),
            status: FsCheckStatus::Pass,
            message: "OK".to_string(),
            repairable: false,
        },
        FsCheckItem {
            check_name: "app_dir".to_string(),
            path: "/data/cortexos/apps/old-app".to_string(),
            status: FsCheckStatus::Warning,
            message: "Orphaned directory".to_string(),
            repairable: true,
        },
        FsCheckItem {
            check_name: "db_integrity".to_string(),
            path: "/data/cortexos/cortex.db".to_string(),
            status: FsCheckStatus::Error,
            message: "Corrupt table".to_string(),
            repairable: false,
        },
    ];
    let result = FsCheckResult::from_items(items);
    assert_eq!(result.total_checked, 3);
    assert_eq!(result.passed, 1);
    assert_eq!(result.warnings, 1);
    assert_eq!(result.errors, 1);
}

#[test]
fn fs_check_result_empty() {
    let result = FsCheckResult::from_items(vec![]);
    assert_eq!(result.total_checked, 0);
    assert_eq!(result.passed, 0);
    assert_eq!(result.warnings, 0);
    assert_eq!(result.errors, 0);
}

#[test]
fn system_info_construction() {
    let info = SystemInfo {
        os_version: "0.1.0".to_string(),
        kernel_version: "6.19.9".to_string(),
        hostname: "cortexos-dev".to_string(),
        architecture: "x86_64".to_string(),
        cpu_count: 8,
        total_memory_bytes: 16_000_000_000,
        uptime_seconds: 86400,
    };
    assert_eq!(info.cpu_count, 8);
    assert_eq!(info.architecture, "x86_64");
}

#[test]
fn diagnostic_bundle_construction() {
    let bundle = DiagnosticBundle {
        exported_at: "2026-03-30T12:00:00Z".to_string(),
        system_info: SystemInfo {
            os_version: "0.1.0".to_string(),
            kernel_version: "6.19.9".to_string(),
            hostname: "cortexos-dev".to_string(),
            architecture: "x86_64".to_string(),
            cpu_count: 8,
            total_memory_bytes: 16_000_000_000,
            uptime_seconds: 3600,
        },
        included_components: vec![
            DiagnosticComponent::SystemLogs { hours: 24 },
            DiagnosticComponent::RunningApps,
            DiagnosticComponent::SystemSettings,
        ],
        total_size_bytes: 1024 * 1024,
    };
    assert_eq!(bundle.included_components.len(), 3);
    assert_eq!(bundle.total_size_bytes, 1048576);
}

#[test]
fn export_options_default() {
    let opts = ExportOptions::default();
    assert!(opts.include_logs);
    assert_eq!(opts.log_hours, 24);
    assert!(opts.include_system_info);
    assert!(opts.include_settings);
}

#[test]
fn error_counts_default() {
    let counts = ErrorCounts::default();
    assert_eq!(counts.last_hour.errors, 0);
    assert_eq!(counts.last_6_hours.warnings, 0);
}

#[test]
fn crash_record_construction() {
    let record = CrashRecord {
        id: uuid::Uuid::now_v7().as_u128(),
        app_id: "com.cortexos.settings".to_string(),
        app_name: "Settings".to_string(),
        exit_code: 139,
        signal: Some(11),
        crash_time: "2026-03-30T12:00:00Z".to_string(),
        crash_log_path: std::path::PathBuf::from("/var/log/cortexos/crash_settings.log"),
        auto_restart_attempts: 2,
    };
    assert_eq!(record.exit_code, 139);
    assert_eq!(record.signal, Some(11));
    assert_eq!(record.auto_restart_attempts, 2);
}
