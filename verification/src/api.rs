//! What the HTTP API answers: the response bodies and the handlers'
//! decisions (reject a blank search, answer from the cache, or report that
//! work was queued).
use vstd::prelude::*;
use vstd::std_specs::convert::FromSpecImpl;
use crate::db::RepositoryRecord;
use crate::error::{AppError, message_of, status_of};
use crate::github::GitHubSearchItem;
use crate::text::{append_text, is_blank, is_blank_text, owned_text};

verus! {

/// A repository as the API shows it. `last_synced_at` is in microseconds
/// since the Unix epoch, UTC.
#[derive(Debug, Clone, PartialEq, Eq)]
pub struct RepositoryResponse {
    pub owner: String,
    pub name: String,
    pub full_name: String,
    pub description: Option<String>,
    pub stars: i32,
    pub forks: i32,
    pub open_issues: i32,
    pub language: Option<String>,
    pub last_synced_at: i64,
}

/// The query of a galaxy request.
#[derive(Debug, Clone, PartialEq, Eq)]
pub struct GalaxyQuery {
    /// When true, skip the cache and queue a fresh ingestion.
    pub refresh: bool,
}

/// The query of a search request.
#[derive(Debug, Clone, PartialEq, Eq)]
pub struct SearchQuery {
    pub q: String,
}

/// The answer to a search.
#[derive(Debug, Clone, PartialEq, Eq)]
pub struct SearchResponse {
    pub status: String,
    pub message: Option<String>,
    pub items: Vec<SearchItemResponse>,
}

/// One repository in a search answer.
#[derive(Debug, Clone, PartialEq, Eq)]
pub struct SearchItemResponse {
    pub id: i64,
    pub full_name: String,
    pub description: Option<String>,
    pub language: Option<String>,
    pub stars: i32,
    pub forks: i32,
}

/// The answer while a repository's galaxy is being built.
#[derive(Debug, Clone, PartialEq, Eq)]
pub struct GalaxyLoading {
    pub message: String,
    pub owner: String,
    pub repo: String,
}

impl Default for GalaxyQuery {
    fn default() -> (r: GalaxyQuery)
        ensures
            !r.refresh,
    {
        GalaxyQuery { refresh: false }
    }
}

impl GalaxyQuery {
    /// Whether the cached galaxy may answer this request: not on a refresh.
    pub fn uses_cache(&self) -> (r: bool)
        ensures
            r == !self.refresh,
    {
        !self.refresh
    }
}

/// How a galaxy request is answered.
#[derive(Debug, Clone, Copy, PartialEq, Eq)]
pub enum GalaxyRoute {
    /// Answer with the cached galaxy.
    ServeCached,
    /// Queue an ingestion of the repository and answer that it is loading.
    Ingest,
}

/// The answer to a galaxy request: the cached galaxy when there is one and
/// no refresh was asked for; otherwise a (re-)ingestion is queued.
pub fn galaxy_route(query: &GalaxyQuery, cached: bool) -> (r: GalaxyRoute)
    ensures
        r == (if !query.refresh && cached {
            GalaxyRoute::ServeCached
        } else {
            GalaxyRoute::Ingest
        }),
{
    if query.uses_cache() && cached {
        GalaxyRoute::ServeCached
    } else {
        GalaxyRoute::Ingest
    }
}

pub open spec fn repository_response_of(v: RepositoryRecord) -> RepositoryResponse {
    RepositoryResponse {
        owner: v.owner,
        name: v.name,
        full_name: v.full_name,
        description: v.description,
        stars: v.stars,
        forks: v.forks,
        open_issues: v.open_issues,
        language: v.language,
        last_synced_at: v.last_synced_at,
    }
}

pub open spec fn item_of_search_hit(v: GitHubSearchItem) -> SearchItemResponse {
    SearchItemResponse {
        id: v.id,
        full_name: v.full_name,
        description: v.description,
        language: v.language,
        stars: v.stars,
        forks: v.forks,
    }
}

pub open spec fn item_of_record(v: RepositoryRecord) -> SearchItemResponse {
    SearchItemResponse {
        id: v.github_id,
        full_name: v.full_name,
        description: v.description,
        language: v.language,
        stars: v.stars,
        forks: v.forks,
    }
}

impl From<RepositoryRecord> for RepositoryResponse {
    fn from(value: RepositoryRecord) -> (r: RepositoryResponse)
        ensures
            r.owner == value.owner,
            r.name == value.name,
            r.full_name == value.full_name,
            r.description == value.description,
            r.stars == value.stars,
            r.forks == value.forks,
            r.open_issues == value.open_issues,
            r.language == value.language,
            r.last_synced_at == value.last_synced_at,
    {
        RepositoryResponse {
            owner: value.owner,
            name: value.name,
            full_name: value.full_name,
            description: value.description,
            stars: value.stars,
            forks: value.forks,
            open_issues: value.open_issues,
            language: value.language,
            last_synced_at: value.last_synced_at,
        }
    }
}

impl FromSpecImpl<RepositoryRecord> for RepositoryResponse {
    open spec fn obeys_from_spec() -> bool {
        true
    }

    open spec fn from_spec(v: RepositoryRecord) -> RepositoryResponse {
        repository_response_of(v)
    }
}

impl From<GitHubSearchItem> for SearchItemResponse {
    fn from(value: GitHubSearchItem) -> (r: SearchItemResponse)
        ensures
            r.id == value.id,
            r.full_name == value.full_name,
            r.description == value.description,
            r.language == value.language,
            r.stars == value.stars,
            r.forks == value.forks,
    {
        SearchItemResponse {
            id: value.id,
            full_name: value.full_name,
            description: value.description,
            language: value.language,
            stars: value.stars,
            forks: value.forks,
        }
    }
}

impl FromSpecImpl<GitHubSearchItem> for SearchItemResponse {
    open spec fn obeys_from_spec() -> bool {
        true
    }

    open spec fn from_spec(v: GitHubSearchItem) -> SearchItemResponse {
        item_of_search_hit(v)
    }
}

impl From<RepositoryRecord> for SearchItemResponse {
    fn from(value: RepositoryRecord) -> (r: SearchItemResponse)
        ensures
            r.id == value.github_id,
            r.full_name == value.full_name,
            r.description == value.description,
            r.language == value.language,
            r.stars == value.stars,
            r.forks == value.forks,
    {
        SearchItemResponse {
            id: value.github_id,
            full_name: value.full_name,
            description: value.description,
            language: value.language,
            stars: value.stars,
            forks: value.forks,
        }
    }
}

impl FromSpecImpl<RepositoryRecord> for SearchItemResponse {
    open spec fn obeys_from_spec() -> bool {
        true
    }

    open spec fn from_spec(v: RepositoryRecord) -> SearchItemResponse {
        item_of_record(v)
    }
}

/// A search needs a query that is not blank.
pub fn validate_search_query(q: &str) -> (r: Result<(), AppError>)
    ensures
        r is Err <==> is_blank_text(q@),
        r matches Err(e) ==> e matches AppError::InvalidRequest(m) && m@
            == "query parameter 'q' is required"@,
{
    if is_blank(q) {
        Err(AppError::InvalidRequest(owned_text("query parameter 'q' is required")))
    } else {
        Ok(())
    }
}

/// The answer with search results from the cache.
pub fn search_ready(records: Vec<RepositoryRecord>) -> (r: SearchResponse)
    ensures
        r.status@ == "ready"@,
        r.message is None,
        r.items@ == records@.map_values(|v: RepositoryRecord| item_of_record(v)),
        r.items@.len() == records@.len(),
        forall|i: int|
            0 <= i < records@.len() ==> (#[trigger] r.items@[i]).id == records@[i].github_id
                && r.items@[i].full_name == records@[i].full_name && r.items@[i].description
                == records@[i].description && r.items@[i].language == records@[i].language
                && r.items@[i].stars == records@[i].stars && r.items@[i].forks == records@[i].forks,
{
    let mut records = records;
    let ghost original = records@;
    let mut reversed: Vec<SearchItemResponse> = Vec::new();
    while records.len() > 0
        invariant
            records@.len() + reversed@.len() == original.len(),
            records@ == original.take(records@.len() as int),
            forall|j: int|
                0 <= j < reversed@.len() ==> #[trigger] reversed@[j] == item_of_record(
                    original[original.len() - 1 - j],
                ),
        decreases records@.len(),
    {
        let ghost before = records@;
        let v = records.pop().unwrap();
        assert(v == original[original.len() - 1 - reversed@.len()]);
        assert(records@ =~= original.take(records@.len() as int));
        let item = SearchItemResponse::from(v);
        assert(item == item_of_record(v));
        reversed.push(item);
    }
    let n = reversed.len();
    let mut items: Vec<SearchItemResponse> = Vec::new();
    while reversed.len() > 0
        invariant
            n == original.len(),
            items@.len() + reversed@.len() == n,
            forall|j: int|
                0 <= j < reversed@.len() ==> #[trigger] reversed@[j] == item_of_record(
                    original[n - 1 - j],
                ),
            forall|j: int| 0 <= j < items@.len() ==> #[trigger] items@[j] == item_of_record(original[j]),
        decreases reversed@.len(),
    {
        let it = reversed.pop().unwrap();
        assert(it == item_of_record(original[items@.len() as int]));
        items.push(it);
    }
    assert(items@ =~= original.map_values(|v: RepositoryRecord| item_of_record(v)));
    assert forall|i: int| 0 <= i < original.len() implies (#[trigger] items@[i]).id
        == original[i].github_id && items@[i].full_name == original[i].full_name
        && items@[i].description == original[i].description && items@[i].language
        == original[i].language && items@[i].stars == original[i].stars && items@[i].forks
        == original[i].forks by {
        assert(items@[i] == item_of_record(original[i]));
    }
    SearchResponse { status: owned_text("ready"), message: None, items }
}

/// The answer when nothing is cached yet and a warmup was queued.
pub fn search_loading() -> (r: SearchResponse)
    ensures
        r.status@ == "loading"@,
        r.message matches Some(m) && m@ == "Search warmup enqueued. Retry shortly for cached results."@,
        r.items@.len() == 0,
{
    SearchResponse {
        status: owned_text("loading"),
        message: Some(owned_text("Search warmup enqueued. Retry shortly for cached results.")),
        items: Vec::new(),
    }
}

/// The answer from the cache, if the cache found anything.
pub fn cached_search_response(records: Vec<RepositoryRecord>) -> (r: Option<SearchResponse>)
    ensures
        r is Some <==> records@.len() > 0,
        r matches Some(resp) ==> resp.status@ == "ready"@ && resp.message is None
            && resp.items@ == records@.map_values(|v: RepositoryRecord| item_of_record(v)),
{
    if records.len() == 0 {
        None
    } else {
        Some(search_ready(records))
    }
}

/// The error for a repository that is not cached.
pub fn repository_not_found(owner: &str, repo: &str) -> (r: AppError)
    ensures
        r matches AppError::NotFound(m) && m@ == "repository "@ + owner@ + "/"@ + repo@
            + " not found in cache"@,
{
    let mut m = owned_text("repository ");
    append_text(&mut m, owner);
    append_text(&mut m, "/");
    append_text(&mut m, repo);
    append_text(&mut m, " not found in cache");
    AppError::NotFound(m)
}

impl GalaxyLoading {
    /// The answer for `owner/repo` while its ingestion is queued.
    pub fn new(owner: String, repo: String) -> (r: GalaxyLoading)
        ensures
            r.message@ == "Repository is being ingested and galaxy will be available shortly"@,
            r.owner == owner,
            r.repo == repo,
    {
        GalaxyLoading {
            message: owned_text("Repository is being ingested and galaxy will be available shortly"),
            owner,
            repo,
        }
    }
}

/// The refusals of the API are answered with their statuses: a blank search
/// with 400 and the message `invalid request: query parameter 'q' is
/// required`, a repository missing from the cache with 404.
pub proof fn lemma_refusal_statuses(blank_search: AppError, missing_repo: AppError)
    requires
        blank_search matches AppError::InvalidRequest(m) && m@
            == "query parameter 'q' is required"@,
        missing_repo matches AppError::NotFound(_),
    ensures
        status_of(blank_search) == 400,
        message_of(blank_search) == "invalid request: "@ + "query parameter 'q' is required"@,
        status_of(missing_repo) == 404,
{
}


/// A search item made from a cached repository carries the repository's own
/// GitHub id, full name, description, language, stars and forks.
pub proof fn lemma_item_of_record_fields(v: RepositoryRecord)
    ensures
        item_of_record(v).id == v.github_id,
        item_of_record(v).full_name == v.full_name,
        item_of_record(v).description == v.description,
        item_of_record(v).language == v.language,
        item_of_record(v).stars == v.stars,
        item_of_record(v).forks == v.forks,
{
}

/// A search item made from a GitHub search hit carries the hit's own fields.
pub proof fn lemma_item_of_search_hit_fields(v: GitHubSearchItem)
    ensures
        item_of_search_hit(v).id == v.id,
        item_of_search_hit(v).full_name == v.full_name,
        item_of_search_hit(v).description == v.description,
        item_of_search_hit(v).language == v.language,
        item_of_search_hit(v).stars == v.stars,
        item_of_search_hit(v).forks == v.forks,
{
}

/// The API's view of a cached repository copies each field of the record to
/// the field of the same name.
pub proof fn lemma_repository_response_fields(v: RepositoryRecord)
    ensures
        repository_response_of(v).owner == v.owner,
        repository_response_of(v).name == v.name,
        repository_response_of(v).full_name == v.full_name,
        repository_response_of(v).description == v.description,
        repository_response_of(v).stars == v.stars,
        repository_response_of(v).forks == v.forks,
        repository_response_of(v).open_issues == v.open_issues,
        repository_response_of(v).language == v.language,
        repository_response_of(v).last_synced_at == v.last_synced_at,
{
}

/// Every item of a ready search answer is the cached repository at the same
/// position, field by field.
pub proof fn lemma_search_items_fields(records: Seq<RepositoryRecord>, i: int)
    requires
        0 <= i < records.len(),
    ensures
        ({
            let item = records.map_values(|v: RepositoryRecord| item_of_record(v))[i];
            &&& item.id == records[i].github_id
            &&& item.full_name == records[i].full_name
            &&& item.description == records[i].description
            &&& item.language == records[i].language
            &&& item.stars == records[i].stars
            &&& item.forks == records[i].forks
        }),
{
}

} // verus!
