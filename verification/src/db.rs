//! The rows the store keeps, as plain values, and the keys that the store's
//! queries are written with. Identifiers are UUIDs held as their 128-bit
//! value; instants are microseconds since the Unix epoch, UTC.
use vstd::prelude::*;
use crate::text::{append_text, push_char};

verus! {

/// A cached repository row.
#[derive(Debug, Clone, PartialEq, Eq)]
pub struct RepositoryRecord {
    pub id: u128,
    pub github_id: i64,
    pub owner: String,
    pub name: String,
    pub full_name: String,
    pub description: Option<String>,
    pub stars: i32,
    pub forks: i32,
    pub open_issues: i32,
    pub language: Option<String>,
    pub created_at: i64,
    pub updated_at: i64,
    pub last_synced_at: i64,
}

/// A contributor row.
#[derive(Debug, Clone, PartialEq, Eq)]
pub struct ContributorRecord {
    pub id: u128,
    pub github_id: i64,
    pub username: String,
    pub avatar_url: Option<String>,
    pub profile_url: String,
    pub created_at: i64,
}

/// A contributor of one repository together with their commit statistics.
#[derive(Debug, Clone, PartialEq, Eq)]
pub struct ContributorWithStats {
    pub id: u128,
    pub github_id: i64,
    pub username: String,
    pub avatar_url: Option<String>,
    pub profile_url: String,
    pub commits: i32,
    pub additions: i32,
    pub deletions: i32,
}

/// What an upsert of a repository row writes.
#[derive(Debug, Clone, PartialEq, Eq)]
pub struct UpsertRepositoryInput {
    pub github_id: i64,
    pub owner: String,
    pub name: String,
    pub full_name: String,
    pub description: Option<String>,
    pub stars: i32,
    pub forks: i32,
    pub open_issues: i32,
    pub language: Option<String>,
    pub created_at: i64,
    pub updated_at: i64,
}

/// What an upsert of a contributor row writes.
#[derive(Debug, Clone, PartialEq, Eq)]
pub struct UpsertContributorInput {
    pub github_id: i64,
    pub username: String,
    pub avatar_url: Option<String>,
    pub profile_url: String,
}

/// One repository–contributor link row.
#[derive(Debug, Clone, PartialEq, Eq)]
pub struct RepoContributorInput {
    pub contributor_id: u128,
    pub commits: i32,
    pub additions: i32,
    pub deletions: i32,
    pub first_commit_at: Option<i64>,
    pub last_commit_at: Option<i64>,
}

/// One language row of a repository: the language and how many bytes of it.
#[derive(Debug, Clone, PartialEq, Eq)]
pub struct RepoLanguageInput {
    pub language: String,
    pub bytes: i64,
}

/// The `owner/repo` text that repositories are keyed by.
pub open spec fn full_name_text(owner: Seq<char>, repo: Seq<char>) -> Seq<char> {
    owner + seq!['/'] + repo
}

/// The `%query%` pattern of a substring search.
pub open spec fn like_pattern_text(query: Seq<char>) -> Seq<char> {
    seq!['%'] + query + seq!['%']
}

/// The full name `owner/repo` under which a repository is looked up.
pub fn full_name_key(owner: &str, repo: &str) -> (r: String)
    ensures
        r@ == full_name_text(owner@, repo@),
{
    let mut r = String::new();
    append_text(&mut r, owner);
    push_char(&mut r, '/');
    append_text(&mut r, repo);
    assert(r@ =~= full_name_text(owner@, repo@));
    r
}

/// The pattern `%query%` that the local search matches names and
/// descriptions against.
pub fn like_pattern(query: &str) -> (r: String)
    ensures
        r@ == like_pattern_text(query@),
{
    let mut r = String::new();
    push_char(&mut r, '%');
    append_text(&mut r, query);
    push_char(&mut r, '%');
    assert(r@ =~= like_pattern_text(query@));
    r
}

} // verus!
