//! The GitHub side: the records the REST API answers with, the requests the
//! client sends, and the client's decisions about each response (retry with
//! backoff, give up, or stop on a rate limit). Sending, sleeping and JSON
//! decoding happen outside the library.
use vstd::prelude::*;
use crate::error::AppError;
use crate::text::{
    append_text, decimal_text, format_i64, in_range, owned_text, parse_i64, push_char,
    signed_text_value,
};

verus! {

#[derive(Debug, Clone, PartialEq, Eq)]
pub struct GitHubOwner {
    pub login: String,
}

/// A repository as the API describes it. Instants are microseconds since
/// the Unix epoch, UTC.
#[derive(Debug, Clone, PartialEq, Eq)]
pub struct GitHubRepository {
    pub id: i64,
    pub name: String,
    pub full_name: String,
    pub description: Option<String>,
    pub stars: i32,
    pub forks: i32,
    pub open_issues: i32,
    pub language: Option<String>,
    pub owner: GitHubOwner,
    pub created_at: i64,
    pub updated_at: i64,
}

/// One entry of a repository's contributor list. Anonymous contributors have
/// no id, login or profile.
#[derive(Debug, Clone, PartialEq, Eq)]
pub struct GitHubContributor {
    pub id: Option<i64>,
    pub login: Option<String>,
    pub contributions: i32,
    pub avatar_url: Option<String>,
    pub html_url: Option<String>,
}

#[derive(Debug, Clone, PartialEq, Eq)]
pub struct GitHubSearchItem {
    pub id: i64,
    pub name: String,
    pub full_name: String,
    pub description: Option<String>,
    pub language: Option<String>,
    pub stars: i32,
    pub forks: i32,
    pub owner: GitHubOwner,
}

#[derive(Debug, Clone, PartialEq, Eq)]
pub struct GitHubSearchResponse {
    pub total_count: i64,
    pub incomplete_results: bool,
    pub items: Vec<GitHubSearchItem>,
}

/// The most requests sent for one call.
pub const MAX_RETRIES: usize = 3;

/// The delay before the first retry, in milliseconds; it doubles each time.
pub const INITIAL_BACKOFF_MS: u64 = 300;

/// The longest sleep on a rate limit, in seconds.
pub const MAX_RATE_LIMIT_WAIT_SECS: u64 = 60;

/// A GET request to the API: the URL, the query pairs, the `Accept` header
/// and the bearer token, if any.
#[derive(Debug, Clone, PartialEq, Eq)]
pub struct GitHubRequest {
    pub url: String,
    pub query: Vec<(String, String)>,
    pub accept: String,
    pub bearer_token: Option<String>,
}

/// The API client's settings: the token it authenticates with, if any.
#[derive(Debug, Clone)]
pub struct GitHubClient {
    pub token: Option<String>,
}

pub open spec fn repo_path_text(owner: Seq<char>, repo: Seq<char>) -> Seq<char> {
    "https://api.github.com/repos/"@ + owner + seq!['/'] + repo
}

pub open spec fn repository_url_text(owner: Seq<char>, repo: Seq<char>) -> Seq<char> {
    repo_path_text(owner, repo)
}

pub open spec fn contributors_url_text(owner: Seq<char>, repo: Seq<char>) -> Seq<char> {
    repo_path_text(owner, repo) + "/contributors"@
}

pub open spec fn languages_url_text(owner: Seq<char>, repo: Seq<char>) -> Seq<char> {
    repo_path_text(owner, repo) + "/languages"@
}

pub open spec fn query_view(q: Seq<(String, String)>) -> Seq<(Seq<char>, Seq<char>)> {
    q.map_values(|p: (String, String)| (p.0@, p.1@))
}

pub open spec fn opt_text(o: Option<String>) -> Option<Seq<char>> {
    match o {
        Some(s) => Some(s@),
        None => None,
    }
}

/// `r` is an authenticated GET of `url` with query `query`.
pub open spec fn is_get(
    r: GitHubRequest,
    token: Option<String>,
    url: Seq<char>,
    query: Seq<(Seq<char>, Seq<char>)>,
) -> bool {
    &&& r.url@ == url
    &&& query_view(r.query@) == query
    &&& r.accept@ == "application/vnd.github+json"@
    &&& opt_text(r.bearer_token) == opt_text(token)
}

fn clone_text_option(o: &Option<String>) -> (r: Option<String>)
    ensures
        r == *o,
{
    match o {
        Some(s) => Some(s.clone()),
        None => None,
    }
}

fn repo_path(owner: &str, repo: &str) -> (r: String)
    ensures
        r@ == repo_path_text(owner@, repo@),
{
    let mut r = owned_text("https://api.github.com/repos/");
    append_text(&mut r, owner);
    push_char(&mut r, '/');
    append_text(&mut r, repo);
    assert(r@ =~= repo_path_text(owner@, repo@));
    r
}

impl GitHubClient {
    pub fn new(token: Option<String>) -> (r: GitHubClient)
        ensures
            r.token == token,
    {
        GitHubClient { token }
    }

    /// A GET of `url` that asks for the API's JSON and carries the token.
    pub fn authenticated_get(&self, url: String) -> (r: GitHubRequest)
        ensures
            is_get(r, self.token, url@, Seq::empty()),
    {
        let r = GitHubRequest {
            url,
            query: Vec::new(),
            accept: owned_text("application/vnd.github+json"),
            bearer_token: clone_text_option(&self.token),
        };
        assert(query_view(r.query@) =~= Seq::empty());
        r
    }

    /// The request for a repository's metadata.
    pub fn repository_request(&self, owner: &str, repo: &str) -> (r: GitHubRequest)
        ensures
            is_get(r, self.token, repository_url_text(owner@, repo@), Seq::empty()),
    {
        self.authenticated_get(repo_path(owner, repo))
    }

    /// The request for one page (of up to 100) of a repository's contributors.
    pub fn contributors_request(&self, owner: &str, repo: &str, page: i32) -> (r: GitHubRequest)
        ensures
            is_get(
                r,
                self.token,
                contributors_url_text(owner@, repo@),
                seq![("per_page"@, "100"@), ("page"@, crate::text::decimal_text(page as int))],
            ),
    {
        let mut url = repo_path(owner, repo);
        append_text(&mut url, "/contributors");
        let mut r = self.authenticated_get(url);
        let mut query: Vec<(String, String)> = Vec::new();
        query.push((owned_text("per_page"), owned_text("100")));
        query.push((owned_text("page"), format_i64(page as i64)));
        assert(query_view(query@) =~= seq![
            ("per_page"@, "100"@),
            ("page"@, crate::text::decimal_text(page as int)),
        ]) by {
            assert(query@.len() == 2);
            assert(query_view(query@)[0] == (query@[0].0@, query@[0].1@));
            assert(query_view(query@)[1] == (query@[1].0@, query@[1].1@));
        }
        r.query = query;
        r
    }

    /// The request for a repository's language byte counts.
    pub fn languages_request(&self, owner: &str, repo: &str) -> (r: GitHubRequest)
        ensures
            is_get(r, self.token, languages_url_text(owner@, repo@), Seq::empty()),
    {
        let mut url = repo_path(owner, repo);
        append_text(&mut url, "/languages");
        self.authenticated_get(url)
    }

    /// The request for the 25 repositories that best match `query`, most
    /// starred first.
    pub fn search_request(&self, query: &str) -> (r: GitHubRequest)
        ensures
            is_get(
                r,
                self.token,
                "https://api.github.com/search/repositories"@,
                seq![
                    ("q"@, query@),
                    ("sort"@, "stars"@),
                    ("order"@, "desc"@),
                    ("per_page"@, "25"@),
                ],
            ),
    {
        let mut r = self.authenticated_get(owned_text("https://api.github.com/search/repositories"));
        let mut q: Vec<(String, String)> = Vec::new();
        q.push((owned_text("q"), owned_text(query)));
        q.push((owned_text("sort"), owned_text("stars")));
        q.push((owned_text("order"), owned_text("desc")));
        q.push((owned_text("per_page"), owned_text("25")));
        assert(query_view(q@) =~= seq![
            ("q"@, query@),
            ("sort"@, "stars"@),
            ("order"@, "desc"@),
            ("per_page"@, "25"@),
        ]) by {
            assert(q@.len() == 4);
            assert(query_view(q@)[0] == (q@[0].0@, q@[0].1@));
            assert(query_view(q@)[1] == (q@[1].0@, q@[1].1@));
            assert(query_view(q@)[2] == (q@[2].0@, q@[2].1@));
            assert(query_view(q@)[3] == (q@[3].0@, q@[3].1@));
        }
        r.query = q;
        r
    }
}

/// The status is a success (2xx).
pub open spec fn is_success(status: u16) -> bool {
    200 <= status <= 299
}

/// The status is worth retrying: too many requests, or a server error (5xx).
pub open spec fn is_retryable(status: u16) -> bool {
    status == 429 || (500 <= status <= 599)
}

/// The response says the rate limit is used up: 403 with
/// `x-ratelimit-remaining: 0`.
pub open spec fn is_rate_limited(status: u16, remaining: Option<Seq<char>>) -> bool {
    status == 403 && remaining == Some(seq!['0'])
}

/// The reset instant that the `x-ratelimit-reset` header gives, 0 when it is
/// missing or not a number.
pub open spec fn reset_value(reset: Option<Seq<char>>) -> i64 {
    match reset {
        Some(t) => match in_range(signed_text_value(t), i64::MIN as int, i64::MAX as int) {
            Some(v) => v as i64,
            None => 0,
        },
        None => 0,
    }
}

pub open spec fn str_opt_view(o: Option<&str>) -> Option<Seq<char>> {
    match o {
        Some(s) => Some(s@),
        None => None,
    }
}

/// Is the status worth retrying?
pub fn retryable_status(status: u16) -> (r: bool)
    ensures
        r == is_retryable(status),
{
    status == 429 || (500 <= status && status <= 599)
}

/// Does the `x-ratelimit-remaining` header say `0`?
pub fn rate_limited(remaining: Option<&str>) -> (r: bool)
    ensures
        r == (str_opt_view(remaining) == Some(seq!['0'])),
{
    match remaining {
        Some(v) => {
            let yes = v.unicode_len() == 1 && v.get_char(0) == '0';
            assert(yes ==> v@ =~= seq!['0']);
            yes
        },
        None => false,
    }
}

/// The instant in the `x-ratelimit-reset` header, if it holds a number.
pub fn parse_rate_limit_reset(reset: Option<&str>) -> (r: Option<i64>)
    ensures
        match reset {
            Some(t) => match in_range(signed_text_value(t@), i64::MIN as int, i64::MAX as int) {
                Some(v) => r == Some(v as i64),
                None => r is None,
            },
            None => r is None,
        },
{
    match reset {
        Some(t) => parse_i64(t),
        None => None,
    }
}

/// How long to sleep on a rate limit that resets at `reset_at` when it is
/// `now` (both Unix seconds): nothing if the reset has passed, else until the
/// reset but at most a minute.
pub open spec fn rate_limit_wait_spec(reset_at: i64, now: i64) -> Option<u64> {
    if reset_at <= now {
        None
    } else if reset_at - now > MAX_RATE_LIMIT_WAIT_SECS {
        Some(MAX_RATE_LIMIT_WAIT_SECS)
    } else {
        Some((reset_at - now) as u64)
    }
}

/// The seconds to sleep on a rate limit that resets at `reset_at`, seen at
/// `now`.
pub fn rate_limit_wait(reset_at: i64, now: i64) -> (r: Option<u64>)
    ensures
        r == rate_limit_wait_spec(reset_at, now),
{
    if reset_at <= now {
        None
    } else {
        let diff: i128 = reset_at as i128 - now as i128;
        if diff > MAX_RATE_LIMIT_WAIT_SECS as i128 {
            Some(MAX_RATE_LIMIT_WAIT_SECS)
        } else {
            Some(diff as u64)
        }
    }
}

/// What the client does with a response.
#[derive(Debug, Clone, PartialEq, Eq)]
pub enum RetryDecision {
    /// Success: decode the body.
    Decode,
    /// The rate limit is used up: wait for it (at most a minute), then fail
    /// with `GitHubRateLimited { reset_at }`.
    RateLimited { reset_at: i64 },
    /// Sleep `delay_ms` milliseconds, then send the request again.
    Retry { delay_ms: u64 },
    /// Fail with the response's status and body.
    Fail,
}

/// Where the client is in its retries of one request.
#[derive(Debug, Clone, Copy, PartialEq, Eq)]
pub struct RetryState {
    pub attempt: usize,
    pub backoff_ms: u64,
}

/// The backoff before the retry that follows attempt `attempt`.
pub open spec fn backoff_for(attempt: int) -> int
    decreases attempt,
{
    if attempt <= 1 {
        INITIAL_BACKOFF_MS as int
    } else {
        2 * backoff_for(attempt - 1)
    }
}

impl RetryState {
    /// Attempt `attempt` of at most `MAX_RETRIES`, with the backoff that
    /// attempt has.
    pub open spec fn well_formed(&self) -> bool {
        1 <= self.attempt <= MAX_RETRIES && self.backoff_ms == backoff_for(self.attempt as int)
    }

    /// The state before the first request.
    pub fn new() -> (r: RetryState)
        ensures
            r.attempt == 1,
            r.backoff_ms == INITIAL_BACKOFF_MS,
            r.well_formed(),
    {
        RetryState { attempt: 1, backoff_ms: INITIAL_BACKOFF_MS }
    }
}

/// What a response with `status` and the two rate-limit headers does to
/// state `s`.
pub open spec fn retry_step(
    s: RetryState,
    status: u16,
    remaining: Option<Seq<char>>,
    reset: Option<Seq<char>>,
) -> (RetryState, RetryDecision) {
    if is_rate_limited(status, remaining) {
        (s, RetryDecision::RateLimited { reset_at: reset_value(reset) })
    } else if is_success(status) {
        (s, RetryDecision::Decode)
    } else if is_retryable(status) && s.attempt < MAX_RETRIES {
        (
            RetryState { attempt: (s.attempt + 1) as usize, backoff_ms: (s.backoff_ms * 2) as u64 },
            RetryDecision::Retry { delay_ms: s.backoff_ms },
        )
    } else {
        (s, RetryDecision::Fail)
    }
}

impl RetryState {
    /// Decides what to do with a response with `status` and the
    /// `x-ratelimit-remaining` and `x-ratelimit-reset` headers.
    pub fn on_response(&mut self, status: u16, remaining: Option<&str>, reset: Option<&str>) -> (r:
        RetryDecision)
        requires
            old(self).well_formed(),
        ensures
            (*final(self), r) == retry_step(
                *old(self),
                status,
                str_opt_view(remaining),
                str_opt_view(reset),
            ),
            final(self).well_formed(),
    {
        if status == 403 && rate_limited(remaining) {
            let reset_at = match parse_rate_limit_reset(reset) {
                Some(v) => v,
                None => 0,
            };
            return RetryDecision::RateLimited { reset_at };
        }
        if 200 <= status && status <= 299 {
            return RetryDecision::Decode;
        }
        if retryable_status(status) && self.attempt < MAX_RETRIES {
            let delay_ms = self.backoff_ms;
            assert(self.backoff_ms <= 1200) by {
                reveal_with_fuel(backoff_for, 3);
            }
            self.attempt = self.attempt + 1;
            self.backoff_ms = self.backoff_ms * 2;
            return RetryDecision::Retry { delay_ms };
        }
        RetryDecision::Fail
    }
}

/// One response as the client sees it: the status and the two rate-limit
/// headers.
pub type ResponseMeta = (u16, Option<Seq<char>>, Option<Seq<char>>);

/// How many requests one call sends from state `s` when the responses come
/// in as `responses` (a call stops at its first decision that is not a
/// retry, or when the responses run out).
pub open spec fn requests_sent(s: RetryState, responses: Seq<ResponseMeta>) -> nat
    decreases responses.len(),
{
    if responses.len() == 0 {
        0
    } else {
        let step = retry_step(s, responses[0].0, responses[0].1, responses[0].2);
        if step.1 is Retry {
            1 + requests_sent(step.0, responses.drop_first())
        } else {
            1
        }
    }
}

/// The client sends at most `MAX_RETRIES` requests for one call, whatever
/// the responses: each retry moves to the next attempt, and the last attempt
/// never retries. The delays before the retries are 300 ms, then 600 ms.
pub proof fn lemma_at_most_max_retries(s: RetryState, responses: Seq<ResponseMeta>)
    requires
        s.well_formed(),
    ensures
        requests_sent(s, responses) <= MAX_RETRIES - s.attempt + 1,
    decreases responses.len(),
{
    if responses.len() > 0 {
        let step = retry_step(s, responses[0].0, responses[0].1, responses[0].2);
        if step.1 is Retry {
            reveal_with_fuel(backoff_for, 3);
            assert(step.0.attempt == s.attempt + 1);
            assert(step.0.well_formed());
            lemma_at_most_max_retries(step.0, responses.drop_first());
        }
    }
}

/// The delays before the retries of one call: 300 ms after the first
/// attempt, 600 ms after the second.
pub proof fn lemma_retry_delays(s: RetryState, status: u16, remaining: Option<Seq<char>>, reset: Option<Seq<char>>)
    requires
        s.well_formed(),
        retry_step(s, status, remaining, reset).1 is Retry,
    ensures
        s.attempt == 1 ==> retry_step(s, status, remaining, reset).1 == (RetryDecision::Retry { delay_ms: 300 }),
        s.attempt == 2 ==> retry_step(s, status, remaining, reset).1 == (RetryDecision::Retry { delay_ms: 600 }),
        s.attempt < MAX_RETRIES,
{
    reveal_with_fuel(backoff_for, 3);
}

/// Collects a repository's contributors page by page until a page comes
/// back empty.
#[derive(Debug, Clone)]
pub struct ContributorPages {
    pub page: i32,
    pub contributors: Vec<GitHubContributor>,
}

impl ContributorPages {
    /// Before the first page.
    pub fn new() -> (r: ContributorPages)
        ensures
            r.page == 1,
            r.contributors@.len() == 0,
    {
        ContributorPages { page: 1, contributors: Vec::new() }
    }

    /// Takes in the contributors of the current page; answers whether the
    /// next page is to be fetched (the page was not empty).
    pub fn absorb(&mut self, page_data: Vec<GitHubContributor>) -> (more: bool)
        requires
            old(self).page < i32::MAX,
        ensures
            more == (page_data@.len() > 0),
            more ==> final(self).contributors@ == old(self).contributors@ + page_data@,
            more ==> final(self).page == old(self).page + 1,
            !more ==> final(self).contributors@ == old(self).contributors@,
            !more ==> final(self).page == old(self).page,
    {
        if page_data.len() == 0 {
            return false;
        }
        let mut data = page_data;
        self.contributors.append(&mut data);
        self.page = self.page + 1;
        true
    }
}

/// The reason phrase that `http::StatusCode` shows for `code` (its
/// canonical reason, or `<unknown status code>`).
pub uninterp spec fn status_reason(code: u16) -> Seq<char>;

/// `reqwest::StatusCode::from_u16(code)` shown with `Display`: the code,
/// a space, and the reason phrase named by `status_reason`. `from_u16` only
/// accepts codes from 100 to 999.
#[verifier::external_body]
fn status_display(code: u16) -> (r: String)
    requires
        100 <= code <= 999,
    ensures
        r@ == decimal_text(code as int) + seq![' '] + status_reason(code),
{
    match reqwest::StatusCode::from_u16(code) {
        Ok(status) => status.to_string(),
        Err(_) => String::new(),
    }
}

/// The error for a response that is neither a success nor retried: its
/// status (as `StatusCode` shows it) and its body.
pub fn request_failed_error(status: u16, body: &str) -> (r: AppError)
    requires
        100 <= status <= 999,
    ensures
        r matches AppError::Other(m) && m@ == "github request failed with status "@ + decimal_text(
            status as int,
        ) + seq![' '] + status_reason(status) + " and body "@ + body@,
{
    let mut m = owned_text("github request failed with status ");
    let shown = status_display(status);
    append_text(&mut m, shown.as_str());
    append_text(&mut m, " and body ");
    append_text(&mut m, body);
    assert(m@ =~= "github request failed with status "@ + decimal_text(status as int) + seq![' ']
        + status_reason(status) + " and body "@ + body@);
    AppError::Other(m)
}


/// The client's decision on each response, stated on the status and headers
/// themselves: a 403 whose `x-ratelimit-remaining` is `0` stops on the rate
/// limit with the reset instant of the header; any other 2xx is decoded; a
/// 429 or 5xx is retried after the current backoff, moving to the next
/// attempt with the backoff doubled, while fewer than three attempts were
/// made; everything else fails. Only a retry changes the state.
pub proof fn lemma_retry_decisions(
    s: RetryState,
    status: u16,
    remaining: Option<Seq<char>>,
    reset: Option<Seq<char>>,
)
    requires
        1 <= s.attempt <= 3,
        s.backoff_ms <= 1200,
    ensures
        ({
            let (next, d) = retry_step(s, status, remaining, reset);
            &&& (status == 403 && remaining == Some(seq!['0'])) ==> next == s
                && d == RetryDecision::RateLimited { reset_at: reset_value(reset) }
            &&& (200 <= status <= 299) ==> next == s && d == RetryDecision::Decode
            &&& ((status == 429 || 500 <= status <= 599) && s.attempt < 3) ==> next.attempt
                == s.attempt + 1 && next.backoff_ms == 2 * s.backoff_ms && d
                == RetryDecision::Retry { delay_ms: s.backoff_ms }
            &&& (d is Retry) ==> (status == 429 || 500 <= status <= 599) && s.attempt < 3
            &&& !(status == 403 && remaining == Some(seq!['0'])) && !(200 <= status <= 299) && !((
            status == 429 || 500 <= status <= 599) && s.attempt < 3) ==> next == s && d
                == RetryDecision::Fail
        }),
{
}

/// The reset instant is the number in the `x-ratelimit-reset` header when it
/// holds one that fits an `i64`, and 0 otherwise.
pub proof fn lemma_reset_value(reset: Option<Seq<char>>)
    ensures
        reset is Some && signed_text_value(reset->0) is Some && i64::MIN <= signed_text_value(
            reset->0,
        )->0 <= i64::MAX ==> reset_value(reset) == signed_text_value(reset->0)->0,
        reset is None ==> reset_value(reset) == 0,
        reset matches Some(t) && signed_text_value(t) is None ==> reset_value(reset) == 0,
{
}

/// The backoffs of the three attempts are 300, 600 and 1200 ms.
pub proof fn lemma_backoff_values()
    ensures
        backoff_for(1) == 300,
        backoff_for(2) == 600,
        backoff_for(3) == 1200,
{
    reveal_with_fuel(backoff_for, 3);
}

/// A rate-limit sleep lasts until the reset, but never more than a minute,
/// and there is none once the reset has passed.
pub proof fn lemma_rate_limit_wait(reset_at: i64, now: i64)
    ensures
        reset_at <= now ==> rate_limit_wait_spec(reset_at, now) is None,
        reset_at > now ==> (rate_limit_wait_spec(reset_at, now) matches Some(w) && 1 <= w <= 60
            && w <= reset_at - now && (w == reset_at - now || w == 60)),
{
}

} // verus!
