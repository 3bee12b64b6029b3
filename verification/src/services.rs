//! What the services write to the store: contributor rows (with stand-ins
//! for anonymous contributors), repository–contributor links and repository
//! rows built from what GitHub answered.
use vstd::prelude::*;
use crate::db::{ContributorRecord, RepoContributorInput, UpsertContributorInput, UpsertRepositoryInput};
use crate::github::{GitHubContributor, GitHubRepository};
use crate::text::{decimal_text, format_u64, joined2, owned_text};

verus! {

/// How many repositories a local search returns at most.
pub const LOCAL_SEARCH_LIMIT: i64 = 25;

/// The username of the anonymous contributor at position `i` (from 0).
pub open spec fn anonymous_name(i: int) -> Seq<char> {
    "anonymous-"@ + decimal_text(i + 1)
}

/// The stand-in profile of a contributor without one.
pub open spec fn default_profile() -> Seq<char> {
    "https://github.com"@
}

/// `u` is the row written for contributor `c` at position `i` of the list.
pub open spec fn upsert_for(u: UpsertContributorInput, c: GitHubContributor, i: int) -> bool {
    &&& u.github_id == (match c.id {
        Some(id) => id as int,
        None => -(i + 1),
    })
    &&& u.username@ == (match c.login {
        Some(l) => l@,
        None => anonymous_name(i),
    })
    &&& u.avatar_url == c.avatar_url
    &&& u.profile_url@ == (match c.html_url {
        Some(h) => h@,
        None => default_profile(),
    })
}

fn clone_text_option(o: &Option<String>) -> (r: Option<String>)
    ensures
        r == *o,
{
    match o {
        Some(s) => Some(s.clone()),
        None => None,
    }
}

/// The contributor rows to upsert for a contributor list: an anonymous
/// contributor at position `i` gets the id `-(i + 1)` and the name
/// `anonymous-{i + 1}`; a missing profile becomes `https://github.com`.
pub fn contributor_upserts(contributors: &[GitHubContributor]) -> (r: Vec<UpsertContributorInput>)
    requires
        contributors@.len() <= i64::MAX,
    ensures
        r@.len() == contributors@.len(),
        forall|i: int| 0 <= i < r@.len() ==> upsert_for(#[trigger] r@[i], contributors@[i], i),
{
    let mut r: Vec<UpsertContributorInput> = Vec::new();
    let mut i: usize = 0;
    while i < contributors.len()
        invariant
            i <= contributors@.len(),
            contributors@.len() <= i64::MAX,
            r@.len() == i,
            forall|j: int| 0 <= j < i ==> upsert_for(#[trigger] r@[j], contributors@[j], j),
        decreases contributors.len() - i,
    {
        let c = &contributors[i];
        let github_id = match c.id {
            Some(id) => id,
            None => -((i as i64) + 1),
        };
        let username = match &c.login {
            Some(l) => l.clone(),
            None => {
                let n = format_u64((i as u64) + 1);
                joined2("anonymous-", n.as_str())
            },
        };
        let profile_url = match &c.html_url {
            Some(h) => h.clone(),
            None => owned_text("https://github.com"),
        };
        let u = UpsertContributorInput {
            github_id,
            username,
            avatar_url: clone_text_option(&c.avatar_url),
            profile_url,
        };
        assert(upsert_for(u, contributors@[i as int], i as int));
        r.push(u);
        i = i + 1;
    }
    r
}

/// Anonymous contributors get ids that no two of them share and that are
/// negative, so they never collide with a GitHub account id.
pub proof fn lemma_anonymous_ids_distinct(
    contributors: Seq<GitHubContributor>,
    rows: Seq<UpsertContributorInput>,
    i: int,
    j: int,
)
    requires
        rows.len() == contributors.len(),
        forall|k: int| 0 <= k < rows.len() ==> upsert_for(#[trigger] rows[k], contributors[k], k),
        0 <= i < rows.len(),
        0 <= j < rows.len(),
        i != j,
        contributors[i].id is None,
        contributors[j].id is None,
    ensures
        rows[i].github_id != rows[j].github_id,
        rows[i].github_id < 0,
{
    assert(upsert_for(rows[i], contributors[i], i));
    assert(upsert_for(rows[j], contributors[j], j));
}

/// `l` links the contributor row `record` to the repository with the
/// commits of `stats`.
pub open spec fn link_for(l: RepoContributorInput, record: ContributorRecord, stats: GitHubContributor) -> bool {
    &&& l.contributor_id == record.id
    &&& l.commits == stats.contributions
    &&& l.additions == 0
    &&& l.deletions == 0
    &&& l.first_commit_at is None
    &&& l.last_commit_at is None
}

/// The link rows of a repository: the `i`-th contributor row with the
/// `i`-th contributor's commits, as far as both lists go.
pub fn repo_contributor_inputs(
    records: &[ContributorRecord],
    stats: &[GitHubContributor],
) -> (r: Vec<RepoContributorInput>)
    ensures
        r@.len() == (if records@.len() < stats@.len() {
            records@.len()
        } else {
            stats@.len()
        }),
        forall|i: int| 0 <= i < r@.len() ==> link_for(#[trigger] r@[i], records@[i], stats@[i]),
{
    let n = if records.len() < stats.len() {
        records.len()
    } else {
        stats.len()
    };
    let mut r: Vec<RepoContributorInput> = Vec::new();
    let mut i: usize = 0;
    while i < n
        invariant
            i <= n,
            n <= records@.len(),
            n <= stats@.len(),
            r@.len() == i,
            forall|j: int| 0 <= j < i ==> link_for(#[trigger] r@[j], records@[j], stats@[j]),
        decreases n - i,
    {
        r.push(
            RepoContributorInput {
                contributor_id: records[i].id,
                commits: stats[i].contributions,
                additions: 0,
                deletions: 0,
                first_commit_at: None,
                last_commit_at: None,
            },
        );
        i = i + 1;
    }
    r
}

/// The repository row written for what GitHub reported of a repository.
pub fn repository_upsert_input(repo: GitHubRepository) -> (r: UpsertRepositoryInput)
    ensures
        r.github_id == repo.id,
        r.owner == repo.owner.login,
        r.name == repo.name,
        r.full_name == repo.full_name,
        r.description == repo.description,
        r.stars == repo.stars,
        r.forks == repo.forks,
        r.open_issues == repo.open_issues,
        r.language == repo.language,
        r.created_at == repo.created_at,
        r.updated_at == repo.updated_at,
{
    UpsertRepositoryInput {
        github_id: repo.id,
        owner: repo.owner.login,
        name: repo.name,
        full_name: repo.full_name,
        description: repo.description,
        stars: repo.stars,
        forks: repo.forks,
        open_issues: repo.open_issues,
        language: repo.language,
        created_at: repo.created_at,
        updated_at: repo.updated_at,
    }
}


/// The row of a contributor, stated on the contributor itself: its GitHub id,
/// or `-(i + 1)` for the anonymous contributor at position `i`; its login, or
/// `anonymous-{i + 1}`; its avatar as given; its profile, or
/// `https://github.com`.
pub proof fn lemma_contributor_row(u: UpsertContributorInput, c: GitHubContributor, i: int)
    requires
        upsert_for(u, c, i),
    ensures
        c.id is Some ==> u.github_id == c.id->0,
        c.id is None ==> u.github_id == -(i + 1),
        c.login is Some ==> u.username@ == c.login->0@,
        c.login is None ==> u.username@ == "anonymous-"@ + decimal_text(i + 1),
        u.avatar_url == c.avatar_url,
        c.html_url is Some ==> u.profile_url@ == c.html_url->0@,
        c.html_url is None ==> u.profile_url@ == "https://github.com"@,
{
}

/// A link row joins the contributor row's id with the contributor's commit
/// count; additions, deletions and commit dates are not known and stay zero
/// or empty.
pub proof fn lemma_link_row(l: RepoContributorInput, record: ContributorRecord, stats: GitHubContributor)
    requires
        link_for(l, record, stats),
    ensures
        l.contributor_id == record.id,
        l.commits == stats.contributions,
        l.additions == 0,
        l.deletions == 0,
        l.first_commit_at is None,
        l.last_commit_at is None,
{
}

} // verus!
