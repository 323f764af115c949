use hardy_monitor::error::{AppError, DatabaseError, NetworkErrorKind, SqlxErrorSummary};

#[test]
fn test_retryable_network_timeout() {
    let err = AppError::Network { message: "timed out".to_string(), kind: NetworkErrorKind::Timeout };
    assert!(err.is_retryable());
}

#[test]
fn test_retryable_pool_exhausted() {
    let err = AppError::Database(DatabaseError::PoolExhausted);
    assert!(err.is_retryable());
}

#[test]
fn test_not_retryable_validation() {
    let err = AppError::Validation("invalid date".to_string());
    assert!(!err.is_retryable());
}

#[test]
fn test_error_category() {
    let err = AppError::Network { message: "test".to_string(), kind: NetworkErrorKind::Timeout };
    assert_eq!(err.category(), "network");

    let err = AppError::Database(DatabaseError::NotFound);
    assert_eq!(err.category(), "database");
}

#[test]
fn test_validation_helper() {
    let err = AppError::validation("bad input");
    match err {
        AppError::Validation(msg) => assert_eq!(msg, "bad input"),
        _ => panic!("Wrong error type"),
    }
}

// ---- further scenarios ----

#[test]
fn retry_classification_covers_every_kind() {
    let net = |kind| AppError::Network { message: String::new(), kind };
    assert!(net(NetworkErrorKind::ConnectionRefused).is_retryable());
    assert!(!net(NetworkErrorKind::DnsFailure).is_retryable());
    assert!(!net(NetworkErrorKind::TlsError).is_retryable());
    assert!(!net(NetworkErrorKind::Unknown).is_retryable());
    assert!(AppError::Database(DatabaseError::ConnectionFailed("x".into())).is_retryable());
    assert!(!AppError::Database(DatabaseError::NotFound).is_retryable());
    assert!(!AppError::api_error(503, "down").is_retryable());
    assert!(!AppError::io("disk").is_retryable());
}

#[test]
fn categories_of_all_variants() {
    assert_eq!(AppError::validation("v").category(), "validation");
    assert_eq!(AppError::io("i").category(), "io");
    assert_eq!(AppError::Config("c".into()).category(), "config");
    assert_eq!(AppError::api_error(404, "nf").category(), "api");
    assert_eq!(AppError::Unknown("u".into()).category(), "unknown");
    assert_eq!(AppError::MlTraining("m".into()).category(), "ml_training");
}

#[test]
fn constructors_carry_their_arguments() {
    match AppError::api_error(429, "slow down") {
        AppError::Api { status_code, message } => {
            assert_eq!(status_code, 429);
            assert_eq!(message, "slow down");
        }
        _ => panic!("wrong variant"),
    }
    match AppError::io("no space") {
        AppError::Io(m) => assert_eq!(m, "no space"),
        _ => panic!("wrong variant"),
    }
}

#[test]
fn anyhow_errors_become_failed_queries() {
    let err = AppError::from_anyhow_db(anyhow::Error::msg("connection reset"), "get_history");
    match err {
        AppError::Database(DatabaseError::QueryFailed { query_context, message }) => {
            assert_eq!(query_context, "get_history");
            assert_eq!(message, "connection reset");
        }
        _ => panic!("wrong variant"),
    }
}

#[test]
fn sqlx_errors_are_classified() {
    match AppError::from_sqlx(&sqlx::Error::PoolTimedOut, "q") {
        AppError::Database(DatabaseError::PoolExhausted) => {}
        _ => panic!("wrong variant"),
    }
    match AppError::from_sqlx(&sqlx::Error::RowNotFound, "q") {
        AppError::Database(DatabaseError::NotFound) => {}
        _ => panic!("wrong variant"),
    }
    match AppError::from_sqlx(&sqlx::Error::Protocol("bad frame".into()), "insert") {
        AppError::Database(DatabaseError::QueryFailed { query_context, message }) => {
            assert_eq!(query_context, "insert");
            assert!(message.contains("bad frame"));
        }
        _ => panic!("wrong variant"),
    }
    match AppError::from_sqlx_summary(
        SqlxErrorSummary::Database { constraint: Some("pk".into()), message: "dup".into() },
        "insert",
    ) {
        AppError::Database(DatabaseError::ConstraintViolation(c)) => assert_eq!(c, "pk"),
        _ => panic!("wrong variant"),
    }
    match AppError::from_sqlx_summary(SqlxErrorSummary::Io { message: "eof".into() }, "q") {
        AppError::Database(DatabaseError::ConnectionFailed(m)) => assert_eq!(m, "eof"),
        _ => panic!("wrong variant"),
    }
    match AppError::from_sqlx_summary(SqlxErrorSummary::Tls { message: "cert".into() }, "q") {
        AppError::Database(DatabaseError::ConnectionFailed(m)) => assert_eq!(m, "cert"),
        _ => panic!("wrong variant"),
    }
    let io = std::io::Error::new(std::io::ErrorKind::UnexpectedEof, "eof");
    match AppError::from_sqlx(&sqlx::Error::Io(io), "q") {
        AppError::Database(DatabaseError::ConnectionFailed(m)) => assert!(m.contains("eof")),
        _ => panic!("wrong variant"),
    }
}

#[test]
fn network_failures_are_classified() {
    match AppError::from_network_failure(true, true, "slow".to_string()) {
        AppError::Network { message, kind } => {
            assert_eq!(message, "slow");
            assert_eq!(kind, NetworkErrorKind::Timeout);
        }
        _ => panic!("wrong variant"),
    }
    match AppError::from_network_failure(false, true, "refused".to_string()) {
        AppError::Network { kind, .. } => assert_eq!(kind, NetworkErrorKind::ConnectionRefused),
        _ => panic!("wrong variant"),
    }
    let err = reqwest::Client::new().get("http://[::1").build().expect_err("bad url");
    let text = err.to_string();
    match AppError::from_reqwest(err) {
        AppError::Network { message, kind } => {
            assert_eq!(kind, NetworkErrorKind::Unknown);
            assert_eq!(message, text);
            assert!(!AppError::Network { message, kind }.is_retryable());
        }
        _ => panic!("wrong variant"),
    }
}

#[test]
fn error_texts_of_all_variants() {
    assert_eq!(AppError::validation("bad input").to_string(), "Validation error: bad input");
    assert_eq!(AppError::api_error(503, "down").to_string(), "API error: 503 - down");
    assert_eq!(AppError::api_error(0, "zero").to_string(), "API error: 0 - zero");
    assert_eq!(AppError::io("disk full").to_string(), "IO error: disk full");
    assert_eq!(AppError::Config("c".into()).to_string(), "Configuration error: c");
    assert_eq!(AppError::Unknown("u".into()).to_string(), "Unexpected error: u");
    assert_eq!(AppError::MlTraining("m".into()).to_string(), "ML training error: m");
    let net = AppError::Network { message: "slow".into(), kind: NetworkErrorKind::Timeout };
    assert_eq!(net.to_string(), "Network error: slow");
    assert_eq!(
        AppError::Database(DatabaseError::QueryFailed {
            query_context: "insert".into(),
            message: "boom".into(),
        })
        .to_string(),
        "Database error: Query failed (insert): boom"
    );
    assert_eq!(
        AppError::Database(DatabaseError::PoolExhausted).to_string(),
        "Database error: Connection pool exhausted"
    );
    assert_eq!(DatabaseError::NotFound.to_string(), "Record not found");
    assert_eq!(
        DatabaseError::ConstraintViolation("pk".into()).to_string(),
        "Constraint violation: pk"
    );
    assert_eq!(DatabaseError::ConnectionFailed("eof".into()).to_string(), "Connection failed: eof");
}

#[test]
fn network_kind_texts_and_query_failed() {
    assert_eq!(NetworkErrorKind::Timeout.to_string(), "Connection timeout");
    assert_eq!(NetworkErrorKind::ConnectionRefused.to_string(), "Connection refused");
    assert_eq!(NetworkErrorKind::DnsFailure.to_string(), "DNS resolution failed");
    assert_eq!(NetworkErrorKind::TlsError.to_string(), "TLS/SSL error");
    assert_eq!(NetworkErrorKind::Unknown.to_string(), "Unknown network error");
    match AppError::query_failed("get_history", "boom".to_string()) {
        AppError::Database(DatabaseError::QueryFailed { query_context, message }) => {
            assert_eq!(query_context, "get_history");
            assert_eq!(message, "boom");
        }
        _ => panic!("wrong variant"),
    }
    match AppError::from_anyhow_db(anyhow::Error::msg("no route"), "insert") {
        AppError::Database(DatabaseError::QueryFailed { query_context, message }) => {
            assert_eq!(query_context, "insert");
            assert_eq!(message, "no route");
        }
        _ => panic!("wrong variant"),
    }
}
