//! Application error values, their retry classification and their
//! category names.

use vstd::prelude::*;

use crate::text::{decimal, decimal_string};

verus! {

#[verifier::external_type_specification]
#[verifier::external_body]
pub struct ExAnyhowError(anyhow::Error);

#[verifier::external_type_specification]
#[verifier::external_body]
pub struct ExSqlxError(sqlx::Error);

#[verifier::external_type_specification]
#[verifier::external_body]
pub struct ExReqwestError(reqwest::Error);

/// What the database-error conversion reads of a `sqlx::Error`.
#[derive(Debug, Clone)]
pub enum SqlxErrorSummary {
    /// The connection pool timed out.
    PoolTimedOut,
    /// A query expecting a row returned none.
    RowNotFound,
    /// The database reported an error, possibly naming a violated constraint.
    Database { constraint: Option<String>, message: String },
    /// I/O failure while talking to the database.
    Io { message: String },
    /// TLS failure while talking to the database.
    Tls { message: String },
    /// Any other failure.
    Other { message: String },
}

/// Which of the shapes the database-error conversion tells apart a
/// `sqlx::Error` has.
#[derive(Debug, Clone, Copy, PartialEq, Eq, Structural)]
pub enum SqlxErrorKind {
    PoolTimedOut,
    RowNotFound,
    Database,
    Io,
    Tls,
    Other,
}

/// The variant of a `sqlx::Error`: `PoolTimedOut`, `RowNotFound`,
/// `Database`, `Io`, `Tls`, or another one.
pub uninterp spec fn sqlx_kind(err: sqlx::Error) -> SqlxErrorKind;

/// For a `sqlx::Error::Database`, the name of the violated constraint that
/// `DatabaseError::constraint` reports.
pub uninterp spec fn sqlx_constraint(err: sqlx::Error) -> Option<Seq<char>>;

/// For a `sqlx::Error::Database`, the text that `DatabaseError::message`
/// reports.
pub uninterp spec fn sqlx_db_message(err: sqlx::Error) -> Seq<char>;

/// What `reqwest::Error::is_timeout` answers for `err`.
pub uninterp spec fn reqwest_timed_out(err: reqwest::Error) -> bool;

/// What `reqwest::Error::is_connect` answers for `err`.
pub uninterp spec fn reqwest_connect_failed(err: reqwest::Error) -> bool;

/// The shape of a summary.
pub open spec fn summary_kind(s: SqlxErrorSummary) -> SqlxErrorKind {
    match s {
        SqlxErrorSummary::PoolTimedOut => SqlxErrorKind::PoolTimedOut,
        SqlxErrorSummary::RowNotFound => SqlxErrorKind::RowNotFound,
        SqlxErrorSummary::Database { .. } => SqlxErrorKind::Database,
        SqlxErrorSummary::Io { .. } => SqlxErrorKind::Io,
        SqlxErrorSummary::Tls { .. } => SqlxErrorKind::Tls,
        SqlxErrorSummary::Other { .. } => SqlxErrorKind::Other,
    }
}

/// The text of an optional string.
pub open spec fn opt_text(o: Option<String>) -> Option<Seq<char>> {
    match o {
        Some(s) => Some(s@),
        None => None,
    }
}

/// Primary application error.
#[derive(Debug, Clone)]
pub enum AppError {
    Network { message: String, kind: NetworkErrorKind },
    Database(DatabaseError),
    Validation(String),
    Io(String),
    Config(String),
    Api { status_code: u16, message: String },
    Unknown(String),
    MlTraining(String),
}

/// Network-specific error kinds.
#[derive(Debug, Clone, Copy, PartialEq, Eq, Structural)]
pub enum NetworkErrorKind {
    Timeout,
    ConnectionRefused,
    DnsFailure,
    TlsError,
    Unknown,
}

/// Database-specific errors.
#[derive(Debug, Clone)]
pub enum DatabaseError {
    QueryFailed { query_context: String, message: String },
    PoolExhausted,
    NotFound,
    ConstraintViolation(String),
    ConnectionFailed(String),
}

/// Transient errors for which a retry may succeed: network timeouts and
/// refused connections, exhausted connection pools and failed database
/// connections.
pub open spec fn is_retryable_spec(e: AppError) -> bool {
    match e {
        AppError::Network { kind, .. } => kind == NetworkErrorKind::Timeout || kind
            == NetworkErrorKind::ConnectionRefused,
        AppError::Database(DatabaseError::PoolExhausted) => true,
        AppError::Database(DatabaseError::ConnectionFailed(_)) => true,
        _ => false,
    }
}

/// Category name of an error, for logging and metrics.
pub open spec fn category_spec(e: AppError) -> Seq<char> {
    match e {
        AppError::Network { .. } => "network"@,
        AppError::Database(_) => "database"@,
        AppError::Validation(_) => "validation"@,
        AppError::Io(_) => "io"@,
        AppError::Config(_) => "config"@,
        AppError::Api { .. } => "api"@,
        AppError::Unknown(_) => "unknown"@,
        AppError::MlTraining(_) => "ml_training"@,
    }
}

/// Text of a database error.
pub open spec fn database_error_text(e: DatabaseError) -> Seq<char> {
    match e {
        DatabaseError::QueryFailed { query_context, message } => "Query failed ("@
            + query_context@ + "): "@ + message@,
        DatabaseError::PoolExhausted => "Connection pool exhausted"@,
        DatabaseError::NotFound => "Record not found"@,
        DatabaseError::ConstraintViolation(c) => "Constraint violation: "@ + c@,
        DatabaseError::ConnectionFailed(m) => "Connection failed: "@ + m@,
    }
}

/// Text of an application error, as it is shown to the user and logged.
pub open spec fn error_text(e: AppError) -> Seq<char> {
    match e {
        AppError::Network { message, .. } => "Network error: "@ + message@,
        AppError::Database(d) => "Database error: "@ + database_error_text(d),
        AppError::Validation(m) => "Validation error: "@ + m@,
        AppError::Io(m) => "IO error: "@ + m@,
        AppError::Config(m) => "Configuration error: "@ + m@,
        AppError::Api { status_code, message } => "API error: "@ + decimal(status_code as nat)
            + " - "@ + message@,
        AppError::Unknown(m) => "Unexpected error: "@ + m@,
        AppError::MlTraining(m) => "ML training error: "@ + m@,
    }
}

/// Text of a network error kind.
pub open spec fn network_kind_text(k: NetworkErrorKind) -> Seq<char> {
    match k {
        NetworkErrorKind::Timeout => "Connection timeout"@,
        NetworkErrorKind::ConnectionRefused => "Connection refused"@,
        NetworkErrorKind::DnsFailure => "DNS resolution failed"@,
        NetworkErrorKind::TlsError => "TLS/SSL error"@,
        NetworkErrorKind::Unknown => "Unknown network error"@,
    }
}

impl NetworkErrorKind {
    /// Text of the network error kind.
    pub fn to_string(&self) -> (r: String)
        ensures
            r@ == network_kind_text(*self),
    {
        match self {
            NetworkErrorKind::Timeout => String::from_str("Connection timeout"),
            NetworkErrorKind::ConnectionRefused => String::from_str("Connection refused"),
            NetworkErrorKind::DnsFailure => String::from_str("DNS resolution failed"),
            NetworkErrorKind::TlsError => String::from_str("TLS/SSL error"),
            NetworkErrorKind::Unknown => String::from_str("Unknown network error"),
        }
    }
}

impl DatabaseError {
    /// Text of the database error.
    pub fn to_string(&self) -> (r: String)
        ensures
            r@ == database_error_text(*self),
    {
        match self {
            DatabaseError::QueryFailed { query_context, message } => {
                let mut s = String::from_str("Query failed (");
                s.append(query_context.as_str());
                s.append("): ");
                s.append(message.as_str());
                s
            },
            DatabaseError::PoolExhausted => String::from_str("Connection pool exhausted"),
            DatabaseError::NotFound => String::from_str("Record not found"),
            DatabaseError::ConstraintViolation(c) => {
                let mut s = String::from_str("Constraint violation: ");
                s.append(c.as_str());
                s
            },
            DatabaseError::ConnectionFailed(m) => {
                let mut s = String::from_str("Connection failed: ");
                s.append(m.as_str());
                s
            },
        }
    }
}

impl AppError {
    /// Whether this error is likely transient, so that retrying may succeed.
    pub fn is_retryable(&self) -> (r: bool)
        ensures
            r == is_retryable_spec(*self),
    {
        match self {
            AppError::Network { kind, .. } => match kind {
                NetworkErrorKind::Timeout | NetworkErrorKind::ConnectionRefused => true,
                _ => false,
            },
            AppError::Database(DatabaseError::PoolExhausted) => true,
            AppError::Database(DatabaseError::ConnectionFailed(_)) => true,
            _ => false,
        }
    }

    /// Network error for a failed HTTP request: timeouts, failed
    /// connections, and everything else, carrying the error's text.
    pub fn from_reqwest(err: reqwest::Error) -> (r: Self)
        ensures
            r matches AppError::Network { kind, .. } && kind == (if reqwest_timed_out(err) {
                NetworkErrorKind::Timeout
            } else if reqwest_connect_failed(err) {
                NetworkErrorKind::ConnectionRefused
            } else {
                NetworkErrorKind::Unknown
            }),
    {
        let timed_out = reqwest_is_timeout(&err);
        let connect_failed = reqwest_is_connect(&err);
        let message = reqwest_message(&err);
        Self::from_network_failure(timed_out, connect_failed, message)
    }

    /// The network error that `from_reqwest` gives for a request that timed
    /// out (`timed_out`), failed to connect (`connect_failed`), or failed
    /// otherwise, with text `message`.
    pub fn from_network_failure(timed_out: bool, connect_failed: bool, message: String) -> (r: Self)
        ensures
            r == (AppError::Network {
                message,
                kind: if timed_out {
                    NetworkErrorKind::Timeout
                } else if connect_failed {
                    NetworkErrorKind::ConnectionRefused
                } else {
                    NetworkErrorKind::Unknown
                },
            }),
    {
        let kind = if timed_out {
            NetworkErrorKind::Timeout
        } else if connect_failed {
            NetworkErrorKind::ConnectionRefused
        } else {
            NetworkErrorKind::Unknown
        };
        AppError::Network { message, kind }
    }

    /// Database error for a `sqlx` failure: pool timeouts exhaust the pool,
    /// missing rows are "not found", database errors naming a constraint are
    /// constraint violations, I/O and TLS failures are connection failures,
    /// everything else is a failed query carrying `context`.
    pub fn from_sqlx(err: &sqlx::Error, context: &str) -> (r: Self)
        ensures
            match sqlx_kind(*err) {
                SqlxErrorKind::PoolTimedOut => r matches AppError::Database(
                    DatabaseError::PoolExhausted,
                ),
                SqlxErrorKind::RowNotFound => r matches AppError::Database(DatabaseError::NotFound),
                SqlxErrorKind::Database => match sqlx_constraint(*err) {
                    Some(c) => r matches AppError::Database(DatabaseError::ConstraintViolation(v))
                        && v@ == c,
                    None => r matches AppError::Database(
                        DatabaseError::QueryFailed { query_context, message },
                    ) && query_context@ == context@ && message@ == sqlx_db_message(*err),
                },
                SqlxErrorKind::Io | SqlxErrorKind::Tls => r matches AppError::Database(
                    DatabaseError::ConnectionFailed(_),
                ),
                SqlxErrorKind::Other => r matches AppError::Database(
                    DatabaseError::QueryFailed { query_context, .. },
                ) && query_context@ == context@,
            },
    {
        let summary = summarize_sqlx_error(err);
        Self::from_sqlx_summary(summary, context)
    }

    /// The database error that `from_sqlx` gives for a failure summarized as
    /// `summary`.
    pub fn from_sqlx_summary(summary: SqlxErrorSummary, context: &str) -> (r: Self)
        ensures
            match summary {
                SqlxErrorSummary::PoolTimedOut => r matches AppError::Database(
                    DatabaseError::PoolExhausted,
                ),
                SqlxErrorSummary::RowNotFound => r matches AppError::Database(
                    DatabaseError::NotFound,
                ),
                SqlxErrorSummary::Database { constraint: Some(c), .. } => r matches AppError::Database(
                    DatabaseError::ConstraintViolation(v),
                ) && v@ == c@,
                SqlxErrorSummary::Database { constraint: None, message } => r matches AppError::Database(
                    DatabaseError::QueryFailed { query_context, message: m },
                ) && query_context@ == context@ && m@ == message@,
                SqlxErrorSummary::Io { message } => r matches AppError::Database(
                    DatabaseError::ConnectionFailed(m),
                ) && m@ == message@,
                SqlxErrorSummary::Tls { message } => r matches AppError::Database(
                    DatabaseError::ConnectionFailed(m),
                ) && m@ == message@,
                SqlxErrorSummary::Other { message } => r matches AppError::Database(
                    DatabaseError::QueryFailed { query_context, message: m },
                ) && query_context@ == context@ && m@ == message@,
            },
    {
        let db_error = match summary {
            SqlxErrorSummary::PoolTimedOut => DatabaseError::PoolExhausted,
            SqlxErrorSummary::RowNotFound => DatabaseError::NotFound,
            SqlxErrorSummary::Database { constraint, message } => match constraint {
                Some(c) => DatabaseError::ConstraintViolation(c),
                None => DatabaseError::QueryFailed { query_context: context.to_owned(), message },
            },
            SqlxErrorSummary::Io { message } => DatabaseError::ConnectionFailed(message),
            SqlxErrorSummary::Tls { message } => DatabaseError::ConnectionFailed(message),
            SqlxErrorSummary::Other { message } => DatabaseError::QueryFailed {
                query_context: context.to_owned(),
                message,
            },
        };
        AppError::Database(db_error)
    }

    /// Database error for a failed query, carrying `context` and the
    /// message of `err`.
    pub fn from_anyhow_db(err: anyhow::Error, context: &str) -> (r: Self)
        ensures
            r matches AppError::Database(DatabaseError::QueryFailed { query_context, .. })
                && query_context@ == context@,
    {
        let message = error_message(&err);
        Self::query_failed(context, message)
    }

    /// Database error for a query that failed with text `message`, carrying
    /// `context`: what `from_anyhow_db` gives for an error whose text is
    /// `message`.
    pub fn query_failed(context: &str, message: String) -> (r: Self)
        ensures
            r matches AppError::Database(DatabaseError::QueryFailed { query_context, message: m })
                && query_context@ == context@ && m == message,
    {
        AppError::Database(
            DatabaseError::QueryFailed { query_context: context.to_owned(), message },
        )
    }

    /// API error with the HTTP status code.
    pub fn api_error(status_code: u16, message: &str) -> (r: Self)
        ensures
            r matches AppError::Api { status_code: s, message: m } && s == status_code && m@
                == message@,
    {
        AppError::Api { status_code, message: message.to_owned() }
    }

    /// Validation error.
    pub fn validation(message: &str) -> (r: Self)
        ensures
            r matches AppError::Validation(m) && m@ == message@,
    {
        AppError::Validation(message.to_owned())
    }

    /// IO error.
    pub fn io(message: &str) -> (r: Self)
        ensures
            r matches AppError::Io(m) && m@ == message@,
    {
        AppError::Io(message.to_owned())
    }

    /// Text of the error, as it is shown to the user and logged.
    pub fn to_string(&self) -> (r: String)
        ensures
            r@ == error_text(*self),
    {
        let (prefix, rest): (&str, String) = match self {
            AppError::Network { message, .. } => ("Network error: ", message.clone()),
            AppError::Database(d) => ("Database error: ", d.to_string()),
            AppError::Validation(m) => ("Validation error: ", m.clone()),
            AppError::Io(m) => ("IO error: ", m.clone()),
            AppError::Config(m) => ("Configuration error: ", m.clone()),
            AppError::Api { status_code, message } => {
                let mut t = decimal_string(*status_code as u64);
                t.append(" - ");
                t.append(message.as_str());
                ("API error: ", t)
            },
            AppError::Unknown(m) => ("Unexpected error: ", m.clone()),
            AppError::MlTraining(m) => ("ML training error: ", m.clone()),
        };
        let mut s = String::from_str(prefix);
        s.append(rest.as_str());
        s
    }

    /// Category name of the error, for logging and metrics.
    pub fn category(&self) -> (r: &'static str)
        ensures
            r@ == category_spec(*self),
    {
        match self {
            AppError::Network { .. } => "network",
            AppError::Database(_) => "database",
            AppError::Validation(_) => "validation",
            AppError::Io(_) => "io",
            AppError::Config(_) => "config",
            AppError::Api { .. } => "api",
            AppError::Unknown(_) => "unknown",
            AppError::MlTraining(_) => "ml_training",
        }
    }
}

/// Calls `reqwest::Error::is_timeout`: whether the request timed out, as
/// the name `reqwest_timed_out` gives it for the error.
#[verifier::external_body]
fn reqwest_is_timeout(err: &reqwest::Error) -> (r: bool)
    ensures
        r == reqwest_timed_out(*err),
{
    err.is_timeout()
}

/// Calls `reqwest::Error::is_connect`: whether connecting failed, as the
/// name `reqwest_connect_failed` gives it for the error.
#[verifier::external_body]
fn reqwest_is_connect(err: &reqwest::Error) -> (r: bool)
    ensures
        r == reqwest_connect_failed(*err),
{
    err.is_connect()
}

/// Calls `ToString::to_string` on a `reqwest::Error`, i.e. its `Display`
/// text. What that text holds is not stated.
#[verifier::external_body]
fn reqwest_message(err: &reqwest::Error) -> String {
    err.to_string()
}

/// Tells the variants of a `sqlx::Error` apart: `PoolTimedOut`,
/// `RowNotFound`, `Database` (with the violated constraint's name from
/// `DatabaseError::constraint` and its `message`), `Io`, `Tls`, and the rest;
/// the messages are the `Display` texts. The variant is the name
/// `sqlx_kind` of the error, and a database error's constraint and message
/// are `sqlx_constraint` and `sqlx_db_message`; the `Display` texts of the
/// other variants are not stated.
#[verifier::external_body]
fn summarize_sqlx_error(err: &sqlx::Error) -> (r: SqlxErrorSummary)
    ensures
        summary_kind(r) == sqlx_kind(*err),
        r matches SqlxErrorSummary::Database { constraint, message } ==> opt_text(constraint)
            == sqlx_constraint(*err) && message@ == sqlx_db_message(*err),
{
    match err {
        sqlx::Error::PoolTimedOut => SqlxErrorSummary::PoolTimedOut,
        sqlx::Error::RowNotFound => SqlxErrorSummary::RowNotFound,
        sqlx::Error::Database(db) => SqlxErrorSummary::Database {
            constraint: db.constraint().map(|c| c.to_string()),
            message: db.message().to_string(),
        },
        sqlx::Error::Io(_) => SqlxErrorSummary::Io { message: err.to_string() },
        sqlx::Error::Tls(_) => SqlxErrorSummary::Tls { message: err.to_string() },
        _ => SqlxErrorSummary::Other { message: err.to_string() },
    }
}

/// Calls `ToString::to_string` on an `anyhow::Error`, i.e. its `Display`
/// text. What that text holds is not stated.
#[verifier::external_body]
fn error_message(err: &anyhow::Error) -> String {
    err.to_string()
}

} // verus!
