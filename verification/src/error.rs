//! The service's errors, the HTTP status each is answered with, and the text
//! of its message. Errors raised by outside components (configuration,
//! database, migrations, HTTP client, JSON) carry the text those components
//! report.
use vstd::prelude::*;
use crate::text::{decimal_text, format_i64, joined2, owned_text};

verus! {

#[derive(Debug, Clone, PartialEq, Eq)]
pub enum AppError {
    Config(String),
    Database(String),
    Migration(String),
    Http(String),
    Serialization(String),
    GitHubRateLimited { reset_at: i64 },
    NotFound(String),
    InvalidRequest(String),
    QueueUnavailable,
    Other(String),
}

/// The HTTP status that answers a request failing with `e`.
pub open spec fn status_of(e: AppError) -> u16 {
    match e {
        AppError::InvalidRequest(_) => 400,
        AppError::NotFound(_) => 404,
        AppError::GitHubRateLimited { .. } => 429,
        AppError::QueueUnavailable => 503,
        _ => 500,
    }
}

/// The text of the error `e`.
pub open spec fn message_of(e: AppError) -> Seq<char> {
    match e {
        AppError::Config(s) => "configuration error: "@ + s@,
        AppError::Database(s) => "database error: "@ + s@,
        AppError::Migration(s) => "migration error: "@ + s@,
        AppError::Http(s) => "http client error: "@ + s@,
        AppError::Serialization(s) => "serialization error: "@ + s@,
        AppError::GitHubRateLimited { reset_at } => "github rate limited until "@ + decimal_text(
            reset_at as int,
        ),
        AppError::NotFound(s) => "resource not found: "@ + s@,
        AppError::InvalidRequest(s) => "invalid request: "@ + s@,
        AppError::QueueUnavailable => "internal worker queue is unavailable"@,
        AppError::Other(s) => "unexpected error: "@ + s@,
    }
}

impl AppError {
    /// The HTTP status of the response to this error.
    pub fn status_code(&self) -> (r: u16)
        ensures
            r == status_of(*self),
    {
        match self {
            AppError::InvalidRequest(_) => 400,
            AppError::NotFound(_) => 404,
            AppError::GitHubRateLimited { .. } => 429,
            AppError::QueueUnavailable => 503,
            AppError::Config(_)
            | AppError::Database(_)
            | AppError::Migration(_)
            | AppError::Http(_)
            | AppError::Serialization(_)
            | AppError::Other(_) => 500,
        }
    }

    /// The text of this error, as it is shown to clients.
    pub fn message(&self) -> (r: String)
        ensures
            r@ == message_of(*self),
    {
        match self {
            AppError::Config(s) => joined2("configuration error: ", s.as_str()),
            AppError::Database(s) => joined2("database error: ", s.as_str()),
            AppError::Migration(s) => joined2("migration error: ", s.as_str()),
            AppError::Http(s) => joined2("http client error: ", s.as_str()),
            AppError::Serialization(s) => joined2("serialization error: ", s.as_str()),
            AppError::GitHubRateLimited { reset_at } => {
                let n = format_i64(*reset_at);
                joined2("github rate limited until ", n.as_str())
            },
            AppError::NotFound(s) => joined2("resource not found: ", s.as_str()),
            AppError::InvalidRequest(s) => joined2("invalid request: ", s.as_str()),
            AppError::QueueUnavailable => owned_text("internal worker queue is unavailable"),
            AppError::Other(s) => joined2("unexpected error: ", s.as_str()),
        }
    }
}


/// The status of each error: a bad request is 400, a missing resource 404, a
/// GitHub rate limit 429, an unavailable queue 503, and every other error
/// 500.
pub proof fn lemma_error_statuses(e: AppError)
    ensures
        e is InvalidRequest ==> status_of(e) == 400,
        e is NotFound ==> status_of(e) == 404,
        e is GitHubRateLimited ==> status_of(e) == 429,
        e is QueueUnavailable ==> status_of(e) == 503,
        (e is Config || e is Database || e is Migration || e is Http || e is Serialization
            || e is Other) ==> status_of(e) == 500,
{
}

} // verus!
