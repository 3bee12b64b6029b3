use server::error::AppError;

#[test]
fn statuses() {
    assert_eq!(AppError::InvalidRequest("x".into()).status_code(), 400);
    assert_eq!(AppError::NotFound("x".into()).status_code(), 404);
    assert_eq!(AppError::GitHubRateLimited { reset_at: 5 }.status_code(), 429);
    assert_eq!(AppError::QueueUnavailable.status_code(), 503);
    assert_eq!(AppError::Config("x".into()).status_code(), 500);
    assert_eq!(AppError::Database("x".into()).status_code(), 500);
    assert_eq!(AppError::Migration("x".into()).status_code(), 500);
    assert_eq!(AppError::Http("x".into()).status_code(), 500);
    assert_eq!(AppError::Serialization("x".into()).status_code(), 500);
    assert_eq!(AppError::Other("x".into()).status_code(), 500);
}

#[test]
fn messages() {
    assert_eq!(AppError::Config("bad".into()).message(), "configuration error: bad");
    assert_eq!(AppError::Database("down".into()).message(), "database error: down");
    assert_eq!(AppError::Migration("m".into()).message(), "migration error: m");
    assert_eq!(AppError::Http("h".into()).message(), "http client error: h");
    assert_eq!(AppError::Serialization("s".into()).message(), "serialization error: s");
    assert_eq!(
        AppError::GitHubRateLimited { reset_at: 1700000000 }.message(),
        "github rate limited until 1700000000"
    );
    assert_eq!(AppError::GitHubRateLimited { reset_at: -5 }.message(), "github rate limited until -5");
    assert_eq!(AppError::NotFound("r".into()).message(), "resource not found: r");
    assert_eq!(AppError::InvalidRequest("q".into()).message(), "invalid request: q");
    assert_eq!(AppError::QueueUnavailable.message(), "internal worker queue is unavailable");
    assert_eq!(AppError::Other("o".into()).message(), "unexpected error: o");
}
