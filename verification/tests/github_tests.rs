use server::error::AppError;
use server::github::request_failed_error;
use server::github::{
    parse_rate_limit_reset, rate_limit_wait, rate_limited, retryable_status,
    ContributorPages, GitHubClient, GitHubContributor, RetryDecision, RetryState, MAX_RETRIES,
};

fn pairs(q: &[(String, String)]) -> Vec<(&str, &str)> {
    q.iter().map(|(a, b)| (a.as_str(), b.as_str())).collect()
}

#[test]
fn repository_request_with_token() {
    let c = GitHubClient::new(Some("secret".into()));
    let r = c.repository_request("octo", "galaxy");
    assert_eq!(r.url, "https://api.github.com/repos/octo/galaxy");
    assert!(r.query.is_empty());
    assert_eq!(r.accept, "application/vnd.github+json");
    assert_eq!(r.bearer_token, Some("secret".to_string()));
}

#[test]
fn requests_without_token() {
    let c = GitHubClient::new(None);
    let r = c.languages_request("a", "b");
    assert_eq!(r.url, "https://api.github.com/repos/a/b/languages");
    assert_eq!(r.bearer_token, None);
    let r = c.contributors_request("a", "b", 3);
    assert_eq!(r.url, "https://api.github.com/repos/a/b/contributors");
    assert_eq!(pairs(&r.query), vec![("per_page", "100"), ("page", "3")]);
    let r = c.search_request("graph db");
    assert_eq!(r.url, "https://api.github.com/search/repositories");
    assert_eq!(
        pairs(&r.query),
        vec![("q", "graph db"), ("sort", "stars"), ("order", "desc"), ("per_page", "25")]
    );
    let r = c.authenticated_get("https://example.test/x".to_string());
    assert_eq!(r.url, "https://example.test/x");
}

#[test]
fn retryable_statuses() {
    assert!(retryable_status(429));
    assert!(retryable_status(500));
    assert!(retryable_status(503));
    assert!(retryable_status(599));
    assert!(!retryable_status(404));
    assert!(!retryable_status(403));
    assert!(!retryable_status(600));
    assert!(!retryable_status(200));
}

#[test]
fn rate_limit_headers() {
    assert!(rate_limited(Some("0")));
    assert!(!rate_limited(Some("1")));
    assert!(!rate_limited(Some("00")));
    assert!(!rate_limited(None));
    assert_eq!(parse_rate_limit_reset(Some("1700000000")), Some(1_700_000_000));
    assert_eq!(parse_rate_limit_reset(Some("soon")), None);
    assert_eq!(parse_rate_limit_reset(None), None);
}

#[test]
fn rate_limit_wait_is_capped() {
    assert_eq!(rate_limit_wait(100, 50), Some(50));
    assert_eq!(rate_limit_wait(1000, 0), Some(60));
    assert_eq!(rate_limit_wait(5, 10), None);
    assert_eq!(rate_limit_wait(10, 10), None);
    assert_eq!(rate_limit_wait(i64::MAX, -5), Some(60));
}

#[test]
fn retries_back_off_then_fail() {
    let mut s = RetryState::new();
    assert_eq!(s.attempt, 1);
    assert_eq!(s.on_response(502, None, None), RetryDecision::Retry { delay_ms: 300 });
    assert_eq!(s.on_response(500, None, None), RetryDecision::Retry { delay_ms: 600 });
    assert_eq!(s.attempt, MAX_RETRIES);
    assert_eq!(s.on_response(503, None, None), RetryDecision::Fail);
}

#[test]
fn success_after_retry() {
    let mut s = RetryState::new();
    assert_eq!(s.on_response(429, Some("5"), None), RetryDecision::Retry { delay_ms: 300 });
    assert_eq!(s.on_response(200, None, None), RetryDecision::Decode);
}

#[test]
fn rate_limit_response() {
    let mut s = RetryState::new();
    assert_eq!(
        s.on_response(403, Some("0"), Some("1700000000")),
        RetryDecision::RateLimited { reset_at: 1_700_000_000 }
    );
    let mut s = RetryState::new();
    assert_eq!(s.on_response(403, Some("0"), Some("later")), RetryDecision::RateLimited { reset_at: 0 });
    let mut s = RetryState::new();
    assert_eq!(s.on_response(403, Some("12"), None), RetryDecision::Fail);
    let mut s = RetryState::new();
    assert_eq!(s.on_response(404, None, None), RetryDecision::Fail);
}

fn anon(contributions: i32) -> GitHubContributor {
    GitHubContributor { id: None, login: None, contributions, avatar_url: None, html_url: None }
}

#[test]
fn pages_until_empty() {
    let mut p = ContributorPages::new();
    assert_eq!(p.page, 1);
    assert!(p.absorb(vec![anon(1), anon(2)]));
    assert_eq!(p.page, 2);
    assert!(p.absorb(vec![anon(3)]));
    assert_eq!(p.page, 3);
    assert!(!p.absorb(vec![]));
    assert_eq!(p.page, 3);
    let got: Vec<i32> = p.contributors.iter().map(|c| c.contributions).collect();
    assert_eq!(got, vec![1, 2, 3]);
}

#[test]
fn failure_error_shows_status_and_body() {
    assert_eq!(
        request_failed_error(404, "nope"),
        AppError::Other("github request failed with status 404 Not Found and body nope".into())
    );
    assert_eq!(
        request_failed_error(599, ""),
        AppError::Other(format!(
            "github request failed with status {} and body ",
            reqwest::StatusCode::from_u16(599).unwrap()
        ))
    );
}
