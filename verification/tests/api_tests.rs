use server::api::{
    cached_search_response, repository_not_found, search_loading, search_ready,
    validate_search_query, galaxy_route, GalaxyLoading, GalaxyQuery, GalaxyRoute, RepositoryResponse, SearchItemResponse,
};
use server::db::RepositoryRecord;
use server::error::AppError;
use server::github::{GitHubOwner, GitHubSearchItem};

fn record(name: &str, stars: i32) -> RepositoryRecord {
    RepositoryRecord {
        id: 1,
        github_id: stars as i64 + 1000,
        owner: "o".into(),
        name: name.into(),
        full_name: format!("o/{name}"),
        description: Some("d".into()),
        stars,
        forks: 1,
        open_issues: 2,
        language: Some("Go".into()),
        created_at: 1,
        updated_at: 2,
        last_synced_at: 3,
    }
}

#[test]
fn blank_search_is_rejected() {
    assert_eq!(
        validate_search_query("  "),
        Err(AppError::InvalidRequest("query parameter 'q' is required".to_string()))
    );
    assert_eq!(validate_search_query(""), validate_search_query("\t"));
    assert_eq!(validate_search_query("galaxy"), Ok(()));
    assert_eq!(validate_search_query("  g "), Ok(()));
}

#[test]
fn ready_answer_keeps_order() {
    let resp = search_ready(vec![record("a", 5), record("b", 3)]);
    assert_eq!(resp.status, "ready");
    assert_eq!(resp.message, None);
    let names: Vec<&str> = resp.items.iter().map(|i| i.full_name.as_str()).collect();
    assert_eq!(names, vec!["o/a", "o/b"]);
    assert_eq!(resp.items[0].id, 1005);
    assert_eq!(resp.items[0].stars, 5);
}

#[test]
fn loading_answer() {
    let resp = search_loading();
    assert_eq!(resp.status, "loading");
    assert_eq!(
        resp.message,
        Some("Search warmup enqueued. Retry shortly for cached results.".to_string())
    );
    assert!(resp.items.is_empty());
}

#[test]
fn cache_answer_only_when_found() {
    assert_eq!(cached_search_response(vec![]), None);
    let r = cached_search_response(vec![record("a", 1)]).unwrap();
    assert_eq!(r.items.len(), 1);
}

#[test]
fn not_found_message() {
    let e = repository_not_found("octo", "galaxy");
    assert_eq!(e, AppError::NotFound("repository octo/galaxy not found in cache".to_string()));
    assert_eq!(e.status_code(), 404);
    assert_eq!(e.message(), "resource not found: repository octo/galaxy not found in cache");
}

#[test]
fn galaxy_loading_answer() {
    let l = GalaxyLoading::new("octo".into(), "galaxy".into());
    assert_eq!(l.message, "Repository is being ingested and galaxy will be available shortly");
    assert_eq!(l.owner, "octo");
    assert_eq!(l.repo, "galaxy");
}

#[test]
fn conversions() {
    let r = RepositoryResponse::from(record("x", 9));
    assert_eq!(r.full_name, "o/x");
    assert_eq!(r.last_synced_at, 3);
    assert_eq!(r.open_issues, 2);
    let i = SearchItemResponse::from(record("x", 9));
    assert_eq!(i.id, 1009);
    let hit = GitHubSearchItem {
        id: 77,
        name: "n".into(),
        full_name: "o/n".into(),
        description: None,
        language: Some("C".into()),
        stars: 4,
        forks: 5,
        owner: GitHubOwner { login: "o".into() },
    };
    let i = SearchItemResponse::from(hit);
    assert_eq!(i.id, 77);
    assert_eq!(i.language, Some("C".to_string()));
    assert_eq!((i.stars, i.forks), (4, 5));
    assert!(!GalaxyQuery::default().refresh);
}

#[test]
fn blank_search_answers_bad_request() {
    let e = validate_search_query(" ").unwrap_err();
    assert_eq!(e.status_code(), 400);
    assert_eq!(e.message(), "invalid request: query parameter 'q' is required");
}

#[test]
fn galaxy_route_honours_refresh() {
    let plain = GalaxyQuery { refresh: false };
    let refresh = GalaxyQuery { refresh: true };
    assert!(plain.uses_cache());
    assert!(!refresh.uses_cache());
    assert_eq!(galaxy_route(&plain, true), GalaxyRoute::ServeCached);
    assert_eq!(galaxy_route(&plain, false), GalaxyRoute::Ingest);
    assert_eq!(galaxy_route(&refresh, true), GalaxyRoute::Ingest);
    assert_eq!(galaxy_route(&refresh, false), GalaxyRoute::Ingest);
}
