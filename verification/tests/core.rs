use cortexos::{CoreError, ErrorCategory, ErrorCode};

#[test]
fn error_code_category_mapping() {
    assert_eq!(ErrorCode::Trans001.category(), ErrorCategory::Transient);
    assert_eq!(ErrorCode::Auth001.category(), ErrorCategory::Auth);
    assert_eq!(ErrorCode::Pol001.category(), ErrorCategory::Policy);
    assert_eq!(ErrorCode::Nf001.category(), ErrorCategory::NotFound);
    assert_eq!(ErrorCode::Val001.category(), ErrorCategory::Validation);
}

#[test]
fn error_code_http_status() {
    assert_eq!(ErrorCode::Trans001.http_status(), 503);
    assert_eq!(ErrorCode::Auth001.http_status(), 401);
    assert_eq!(ErrorCode::Nf001.http_status(), 404);
    assert_eq!(ErrorCode::Conf001.http_status(), 409);
    assert_eq!(ErrorCode::Val003.http_status(), 422);
}

#[test]
fn error_code_retryable() {
    assert!(ErrorCode::Trans001.retryable());
    assert!(ErrorCode::Pu001.retryable());
    assert!(ErrorCode::Tm001.retryable());
    assert!(!ErrorCode::Auth001.retryable());
    assert!(!ErrorCode::Val001.retryable());
    assert!(!ErrorCode::Pol001.retryable());
}

#[test]
fn core_error_to_cortex_error() {
    let err = CoreError::NotFound("user not found".to_string());
    let cortex_err = err.to_cortex_error("req-123");
    assert_eq!(cortex_err.error.code, "NF_001");
    assert_eq!(cortex_err.error.category, ErrorCategory::NotFound);
    assert_eq!(cortex_err.error.message, "user not found");
    assert!(!cortex_err.error.retryable);
}

#[test]
fn all_error_codes_have_valid_status() {
    let codes = [
        ErrorCode::Trans001,
        ErrorCode::Perm001,
        ErrorCode::Auth001,
        ErrorCode::Auth002,
        ErrorCode::Pol001,
        ErrorCode::Pol002,
        ErrorCode::Nf001,
        ErrorCode::Nf002,
        ErrorCode::Conf001,
        ErrorCode::Conf002,
        ErrorCode::Rl001,
        ErrorCode::Qe001,
        ErrorCode::Qe002,
        ErrorCode::Pu001,
        ErrorCode::Pu002,
        ErrorCode::Tm001,
        ErrorCode::Tm002,
        ErrorCode::Val001,
        ErrorCode::Val002,
        ErrorCode::Val003,
    ];
    for code in &codes {
        let status = code.http_status();
        assert!(
            (400..600).contains(&status),
            "invalid status {status} for {code:?}"
        );
    }
}

#[test]
fn error_code_strings() {
    assert_eq!(ErrorCode::Val001.code_str(), "VAL_001");
    assert_eq!(ErrorCode::Rl001.code_str(), "RL_001");
    assert_eq!(ErrorCode::Rl001.http_status(), 429);
}
