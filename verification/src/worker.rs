//! The background ingestion jobs and the plain decisions of the worker:
//! which search hits a warmup fetches, and the language rows it stores.
use vstd::prelude::*;
use crate::db::RepoLanguageInput;
use crate::github::GitHubSearchItem;
use crate::text::owned_text;

verus! {

/// A unit of background work.
#[derive(Debug, Clone, PartialEq, Eq)]
pub enum IngestionJob {
    /// Fetch a repository, its contributors and languages, and rebuild its
    /// galaxy.
    Repo { owner: String, repo: String },
    /// Search GitHub and cache the best hits.
    SearchWarmup { query: String },
}

impl IngestionJob {
    /// The job that ingests `owner/repo`.
    pub fn for_repo(owner: &str, repo: &str) -> (r: IngestionJob)
        ensures
            r matches IngestionJob::Repo { owner: o, repo: p } && o@ == owner@ && p@ == repo@,
    {
        IngestionJob::Repo { owner: owned_text(owner), repo: owned_text(repo) }
    }

    /// The job that warms the cache for the search `query`.
    pub fn for_search_warmup(query: &str) -> (r: IngestionJob)
        ensures
            r matches IngestionJob::SearchWarmup { query: q } && q@ == query@,
    {
        IngestionJob::SearchWarmup { query: owned_text(query) }
    }
}

/// How many search hits a warmup fetches at most.
pub const SEARCH_WARMUP_LIMIT: usize = 10;

/// The `(owner, name)` of the search hits a warmup fetches: the first ten.
pub fn warmup_targets(hits: &[GitHubSearchItem]) -> (r: Vec<(String, String)>)
    ensures
        r@.len() == (if hits@.len() < SEARCH_WARMUP_LIMIT {
            hits@.len()
        } else {
            SEARCH_WARMUP_LIMIT as nat
        }),
        forall|i: int|
            0 <= i < r@.len() ==> (#[trigger] r@[i]).0@ == hits@[i].owner.login@ && r@[i].1@
                == hits@[i].name@,
{
    let n = if hits.len() < SEARCH_WARMUP_LIMIT {
        hits.len()
    } else {
        SEARCH_WARMUP_LIMIT
    };
    let mut r: Vec<(String, String)> = Vec::new();
    let mut i: usize = 0;
    while i < n
        invariant
            i <= n,
            n <= hits@.len(),
            r@.len() == i,
            forall|j: int|
                0 <= j < i ==> (#[trigger] r@[j]).0@ == hits@[j].owner.login@ && r@[j].1@
                    == hits@[j].name@,
        decreases n - i,
    {
        r.push((hits[i].owner.login.clone(), hits[i].name.clone()));
        i = i + 1;
    }
    r
}

/// The language rows of a repository, one per `(language, bytes)` pair, in
/// the order given.
pub fn language_rows(languages: &[(String, i64)]) -> (r: Vec<RepoLanguageInput>)
    ensures
        r@.len() == languages@.len(),
        forall|i: int|
            0 <= i < r@.len() ==> (#[trigger] r@[i]).language == languages@[i].0 && r@[i].bytes
                == languages@[i].1,
{
    let mut r: Vec<RepoLanguageInput> = Vec::new();
    let mut i: usize = 0;
    while i < languages.len()
        invariant
            i <= languages@.len(),
            r@.len() == i,
            forall|j: int|
                0 <= j < i ==> (#[trigger] r@[j]).language == languages@[j].0 && r@[j].bytes
                    == languages@[j].1,
        decreases languages.len() - i,
    {
        r.push(RepoLanguageInput { language: languages[i].0.clone(), bytes: languages[i].1 });
        i = i + 1;
    }
    r
}

} // verus!
