use server::db::{full_name_key, like_pattern, ContributorRecord};
use server::github::{GitHubContributor, GitHubOwner, GitHubRepository, GitHubSearchItem};
use server::services::{contributor_upserts, repo_contributor_inputs, repository_upsert_input, LOCAL_SEARCH_LIMIT};
use server::worker::{language_rows, warmup_targets, IngestionJob, SEARCH_WARMUP_LIMIT};

#[test]
fn store_keys() {
    assert_eq!(full_name_key("octo", "galaxy"), "octo/galaxy");
    assert_eq!(like_pattern("rust"), "%rust%");
    assert_eq!(like_pattern(""), "%%");
    assert_eq!(LOCAL_SEARCH_LIMIT, 25);
}

#[test]
fn contributor_rows() {
    let cs = vec![
        GitHubContributor {
            id: Some(42),
            login: Some("alice".into()),
            contributions: 10,
            avatar_url: Some("https://a/1".into()),
            html_url: Some("https://github.com/alice".into()),
        },
        GitHubContributor { id: None, login: None, contributions: 3, avatar_url: None, html_url: None },
        GitHubContributor { id: None, login: Some("ghost".into()), contributions: 1, avatar_url: None, html_url: None },
    ];
    let rows = contributor_upserts(&cs);
    assert_eq!(rows.len(), 3);
    assert_eq!(rows[0].github_id, 42);
    assert_eq!(rows[0].username, "alice");
    assert_eq!(rows[0].avatar_url, Some("https://a/1".to_string()));
    assert_eq!(rows[0].profile_url, "https://github.com/alice");
    assert_eq!(rows[1].github_id, -2);
    assert_eq!(rows[1].username, "anonymous-2");
    assert_eq!(rows[1].profile_url, "https://github.com");
    assert_eq!(rows[2].github_id, -3);
    assert_eq!(rows[2].username, "ghost");
}

#[test]
fn link_rows_zip_the_shorter_list() {
    let records = vec![
        ContributorRecord { id: 11, github_id: 1, username: "a".into(), avatar_url: None, profile_url: "p".into(), created_at: 0 },
        ContributorRecord { id: 12, github_id: 2, username: "b".into(), avatar_url: None, profile_url: "p".into(), created_at: 0 },
    ];
    let stats = vec![
        GitHubContributor { id: Some(1), login: None, contributions: 7, avatar_url: None, html_url: None },
        GitHubContributor { id: Some(2), login: None, contributions: 8, avatar_url: None, html_url: None },
        GitHubContributor { id: Some(3), login: None, contributions: 9, avatar_url: None, html_url: None },
    ];
    let links = repo_contributor_inputs(&records, &stats);
    assert_eq!(links.len(), 2);
    assert_eq!(links[0].contributor_id, 11);
    assert_eq!(links[0].commits, 7);
    assert_eq!(links[1].contributor_id, 12);
    assert_eq!(links[1].commits, 8);
    assert_eq!(links[1].additions, 0);
    assert_eq!(links[1].deletions, 0);
    assert_eq!(links[1].first_commit_at, None);
    assert_eq!(links[1].last_commit_at, None);
}

#[test]
fn repository_row_from_github() {
    let r = GitHubRepository {
        id: 5,
        name: "galaxy".into(),
        full_name: "octo/galaxy".into(),
        description: Some("stars".into()),
        stars: 10,
        forks: 2,
        open_issues: 3,
        language: None,
        owner: GitHubOwner { login: "octo".into() },
        created_at: 100,
        updated_at: 200,
    };
    let u = repository_upsert_input(r);
    assert_eq!(u.github_id, 5);
    assert_eq!(u.owner, "octo");
    assert_eq!(u.name, "galaxy");
    assert_eq!(u.full_name, "octo/galaxy");
    assert_eq!(u.description, Some("stars".to_string()));
    assert_eq!((u.stars, u.forks, u.open_issues), (10, 2, 3));
    assert_eq!(u.language, None);
    assert_eq!((u.created_at, u.updated_at), (100, 200));
}

#[test]
fn jobs() {
    assert_eq!(
        IngestionJob::for_repo("octo", "galaxy"),
        IngestionJob::Repo { owner: "octo".into(), repo: "galaxy".into() }
    );
    assert_eq!(
        IngestionJob::for_search_warmup("db"),
        IngestionJob::SearchWarmup { query: "db".into() }
    );
}

fn hit(i: i64) -> GitHubSearchItem {
    GitHubSearchItem {
        id: i,
        name: format!("r{i}"),
        full_name: format!("o{i}/r{i}"),
        description: None,
        language: None,
        stars: 0,
        forks: 0,
        owner: GitHubOwner { login: format!("o{i}") },
    }
}

#[test]
fn warmup_takes_first_ten() {
    let hits: Vec<GitHubSearchItem> = (0..12).map(hit).collect();
    let t = warmup_targets(&hits);
    assert_eq!(t.len(), SEARCH_WARMUP_LIMIT);
    assert_eq!(t[0], ("o0".to_string(), "r0".to_string()));
    assert_eq!(t[9], ("o9".to_string(), "r9".to_string()));
    let few: Vec<GitHubSearchItem> = (0..3).map(hit).collect();
    assert_eq!(warmup_targets(&few).len(), 3);
}

#[test]
fn language_rows_keep_pairs() {
    let rows = language_rows(&[("Rust".to_string(), 1000), ("Shell".to_string(), 20)]);
    assert_eq!(rows.len(), 2);
    assert_eq!(rows[0].language, "Rust");
    assert_eq!(rows[0].bytes, 1000);
    assert_eq!(rows[1].language, "Shell");
    assert_eq!(rows[1].bytes, 20);
}
