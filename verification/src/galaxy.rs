//! The deterministic galaxy plan of a repository: the repository is the
//! star, its best ranked contributors (at most fifty) are planets in rank
//! order, everyone else is counted in the asteroid belt. A planet's position
//! is drawn from the SHA-256 digest of a seed made of the repository's full
//! name, the username and the commit count. Sizes, radii and angles are
//! floating-point quantities derived from this plan outside the library.
use vstd::prelude::*;
use vstd::relations::sorted_by;
use vstd::seq_lib::{lemma_multiset_commutative, to_multiset_len};
use sha2::{Digest, Sha256};
use crate::db::{ContributorWithStats, RepositoryRecord};
use crate::ranking::{
    RankKey, contributor_keys, entry_key, entry_keys, lemma_rank_order_total, lemma_sorted_unique,
    rank_contributors, rank_order, ranked_keys, ranks_no_later,
};
use crate::text::{append_text, decimal_text, format_i64, push_char};

verus! {

/// At most this many contributors become planets.
pub const MAX_PLANETS: usize = 50;

/// The SHA-256 digest of the UTF-8 encoding of `text`.
pub uninterp spec fn sha256_of_text(text: Seq<char>) -> Seq<u8>;

/// `sha2::Sha256::digest` over the UTF-8 bytes of `text`. The result is named
/// by `sha256_of_text`; SHA-256 digests are 32 bytes long.
#[verifier::external_body]
fn sha256_text(text: &str) -> (r: Vec<u8>)
    ensures
        r@ == sha256_of_text(text@),
        r@.len() == 32,
{
    Sha256::digest(text.as_bytes()).to_vec()
}

/// Three 16-bit numbers drawn from a digest: each is two bytes read big-endian
/// (`u16::from_be_bytes`). They fix a planet's angle, tilt and depth.
#[derive(Debug, Clone, Copy, PartialEq, Eq)]
pub struct PositionUnits {
    pub angle: u16,
    pub tilt: u16,
    pub depth: u16,
}

/// The big-endian 16-bit number of two bytes.
pub open spec fn be_u16(hi: u8, lo: u8) -> u16 {
    (hi as int * 256 + lo as int) as u16
}

/// The position numbers of a digest: bytes 0–1, 2–3 and 4–5.
pub open spec fn units_of_digest(d: Seq<u8>) -> PositionUnits {
    PositionUnits { angle: be_u16(d[0], d[1]), tilt: be_u16(d[2], d[3]), depth: be_u16(d[4], d[5]) }
}

/// The position numbers of `digest`, which holds at least six bytes.
pub fn units_from_digest(digest: &[u8]) -> (r: PositionUnits)
    requires
        digest@.len() >= 6,
    ensures
        r == units_of_digest(digest@),
{
    PositionUnits {
        angle: (digest[0] as u16) * 256 + (digest[1] as u16),
        tilt: (digest[2] as u16) * 256 + (digest[3] as u16),
        depth: (digest[4] as u16) * 256 + (digest[5] as u16),
    }
}

/// The position numbers of the planet with this seed.
pub fn position_units(seed: &str) -> (r: PositionUnits)
    ensures
        r == units_of_digest(sha256_of_text(seed@)),
{
    let digest = sha256_text(seed);
    units_from_digest(digest.as_slice())
}

/// The seed of a planet: `full_name:username:commits`.
pub open spec fn planet_seed_text(full_name: Seq<char>, username: Seq<char>, commits: i32) -> Seq<
    char,
> {
    full_name + seq![':'] + username + seq![':'] + decimal_text(commits as int)
}

/// The seed `full_name:username:commits` of a planet.
pub fn planet_seed(full_name: &str, username: &str, commits: i32) -> (r: String)
    ensures
        r@ == planet_seed_text(full_name@, username@, commits),
{
    let mut r = String::new();
    append_text(&mut r, full_name);
    push_char(&mut r, ':');
    append_text(&mut r, username);
    push_char(&mut r, ':');
    let n = format_i64(commits as i64);
    append_text(&mut r, n.as_str());
    assert(r@ =~= planet_seed_text(full_name@, username@, commits));
    r
}

/// The contributors beyond the planets, of whom only the number is shown.
#[derive(Debug, Clone, PartialEq, Eq)]
pub struct AsteroidBelt {
    pub count: usize,
}

/// One planet: a contributor, their rank (1 for the best) and where the
/// position is drawn from.
#[derive(Debug, Clone, PartialEq, Eq)]
pub struct PlanetPlan {
    pub username: String,
    pub commits: i32,
    pub rank: usize,
    pub seed: String,
    pub position: PositionUnits,
}

/// The whole galaxy of a repository, before sizes and coordinates are
/// computed from it.
#[derive(Debug, Clone, PartialEq, Eq)]
pub struct GalaxyPlan {
    pub star_name: String,
    pub star_stars: i32,
    pub star_forks: i32,
    pub planets: Vec<PlanetPlan>,
    pub asteroid_belt: AsteroidBelt,
}

/// How many of `n` contributors become planets.
pub open spec fn planet_count(n: int) -> int {
    if n < MAX_PLANETS {
        n
    } else {
        MAX_PLANETS as int
    }
}

/// `p` is the planet of the contributor with rank key `key` at rank `rank`.
pub open spec fn planet_for(p: PlanetPlan, full_name: Seq<char>, key: RankKey, rank: int) -> bool {
    &&& p.username@ == key.0
    &&& p.commits == key.1
    &&& p.rank == rank
    &&& p.seed@ == planet_seed_text(full_name, key.0, key.1)
    &&& p.position == units_of_digest(sha256_of_text(p.seed@))
}

/// `plan` is the galaxy of `repo` with contributors `cs`.
pub open spec fn is_galaxy_plan(
    repo: RepositoryRecord,
    cs: Seq<ContributorWithStats>,
    plan: GalaxyPlan,
) -> bool {
    let ranked = ranked_keys(cs);
    let m = planet_count(cs.len() as int);
    &&& plan.star_name@ == repo.full_name@
    &&& plan.star_stars == repo.stars
    &&& plan.star_forks == repo.forks
    &&& plan.planets@.len() == m
    &&& forall|i: int|
        0 <= i < m ==> planet_for(#[trigger] plan.planets@[i], repo.full_name@, ranked[i], i + 1)
    &&& plan.asteroid_belt.count == cs.len() - m
}

/// Generates the galaxy plan of a repository from its contributors.
#[derive(Debug, Clone, Copy)]
pub struct GalaxyGenerator;

impl GalaxyGenerator {
    /// The galaxy plan of `repo`: the star, the best ranked contributors as
    /// planets in rank order, and the number of everyone else.
    pub fn generate(repo: &RepositoryRecord, contributors: &[ContributorWithStats]) -> (r:
        GalaxyPlan)
        ensures
            is_galaxy_plan(*repo, contributors@, r),
    {
        let ranked = rank_contributors(contributors);
        let total = ranked.len();
        let m = if total < MAX_PLANETS {
            total
        } else {
            MAX_PLANETS
        };
        let ghost keys = ranked_keys(contributors@);
        let mut planets: Vec<PlanetPlan> = Vec::new();
        let mut i: usize = 0;
        while i < m
            invariant
                i <= m,
                m <= ranked@.len(),
                keys == entry_keys(ranked@),
                planets@.len() == i,
                forall|j: int|
                    0 <= j < i ==> planet_for(
                        #[trigger] planets@[j],
                        repo.full_name@,
                        keys[j],
                        j + 1,
                    ),
            decreases m - i,
        {
            let entry = &ranked[i];
            let seed = planet_seed(repo.full_name.as_str(), entry.username.as_str(), entry.commits);
            let position = position_units(seed.as_str());
            let planet = PlanetPlan {
                username: entry.username.clone(),
                commits: entry.commits,
                rank: i + 1,
                seed,
                position,
            };
            assert(keys[i as int] == entry_key(ranked@[i as int]));
            planets.push(planet);
            i = i + 1;
        }
        GalaxyPlan {
            star_name: repo.full_name.clone(),
            star_stars: repo.stars,
            star_forks: repo.forks,
            planets,
            asteroid_belt: AsteroidBelt { count: total - m },
        }
    }
}

/// The rank keys of a plan's planets, in order.
pub open spec fn planet_keys(plan: GalaxyPlan) -> Seq<RankKey> {
    plan.planets@.map_values(|p: PlanetPlan| (p.username@, p.commits))
}

/// Every contributor is shown: as one of at most fifty planets, or counted
/// in the asteroid belt; with more than fifty contributors there are exactly
/// fifty planets.
pub proof fn lemma_every_contributor_shown(
    repo: RepositoryRecord,
    cs: Seq<ContributorWithStats>,
    plan: GalaxyPlan,
)
    requires
        is_galaxy_plan(repo, cs, plan),
    ensures
        plan.planets@.len() + plan.asteroid_belt.count == cs.len(),
        plan.planets@.len() <= MAX_PLANETS,
        cs.len() >= MAX_PLANETS ==> plan.planets@.len() == MAX_PLANETS,
        plan.asteroid_belt.count == if cs.len() > MAX_PLANETS {
            cs.len() - MAX_PLANETS
        } else {
            0
        },
{
}

proof fn lemma_ranked_keys_facts(cs: Seq<ContributorWithStats>)
    ensures
        sorted_by(ranked_keys(cs), rank_order()),
        ranked_keys(cs).to_multiset() == contributor_keys(cs).to_multiset(),
        ranked_keys(cs).len() == cs.len(),
{
    lemma_rank_order_total();
    contributor_keys(cs).lemma_sort_by_ensures(rank_order());
    to_multiset_len(ranked_keys(cs));
    to_multiset_len(contributor_keys(cs));
}

/// The planets are the best ranked contributors, in rank order: together with
/// the contributors counted in the belt they are exactly the repository's
/// contributors, each planet ranks no later than the next one, and no
/// contributor in the belt has more commits than any planet.
pub proof fn lemma_planets_are_the_top_contributors(
    repo: RepositoryRecord,
    cs: Seq<ContributorWithStats>,
    plan: GalaxyPlan,
)
    requires
        is_galaxy_plan(repo, cs, plan),
    ensures
        ({
            let belt = ranked_keys(cs).skip(plan.planets@.len() as int);
            &&& contributor_keys(cs).to_multiset() == planet_keys(plan).to_multiset().add(
                belt.to_multiset(),
            )
            &&& belt.len() == plan.asteroid_belt.count
            &&& forall|i: int, j: int|
                0 <= i < j < plan.planets@.len() ==> ranks_no_later(
                    (plan.planets@[i].username@, plan.planets@[i].commits),
                    (plan.planets@[j].username@, plan.planets@[j].commits),
                )
            &&& forall|i: int, j: int|
                #![trigger plan.planets@[i], belt[j]]
                0 <= i < plan.planets@.len() && 0 <= j < belt.len() ==> ranks_no_later(
                    (plan.planets@[i].username@, plan.planets@[i].commits),
                    belt[j],
                ) && plan.planets@[i].commits >= belt[j].1
        }),
{
    lemma_ranked_keys_facts(cs);
    let ranked = ranked_keys(cs);
    let m = plan.planets@.len() as int;
    let belt = ranked.skip(m);
    assert(planet_keys(plan) =~= ranked.take(m)) by {
        assert forall|i: int| 0 <= i < m implies planet_keys(plan)[i] == ranked.take(m)[i] by {
            assert(planet_for(plan.planets@[i], repo.full_name@, ranked[i], i + 1));
        }
    }
    assert(ranked =~= ranked.take(m) + belt);
    lemma_multiset_commutative(ranked.take(m), belt);
    assert forall|i: int, j: int| 0 <= i < j < m implies ranks_no_later(
        (plan.planets@[i].username@, plan.planets@[i].commits),
        (plan.planets@[j].username@, plan.planets@[j].commits),
    ) by {
        assert(planet_for(plan.planets@[i], repo.full_name@, ranked[i], i + 1));
        assert(planet_for(plan.planets@[j], repo.full_name@, ranked[j], j + 1));
        assert(rank_order()(ranked[i], ranked[j]));
    }
    assert forall|i: int, j: int|
        #![trigger plan.planets@[i], belt[j]]
        0 <= i < m && 0 <= j < belt.len() implies ranks_no_later(
        (plan.planets@[i].username@, plan.planets@[i].commits),
        belt[j],
    ) && plan.planets@[i].commits >= belt[j].1 by {
        assert(planet_for(plan.planets@[i], repo.full_name@, ranked[i], i + 1));
        assert(belt[j] == ranked[m + j]);
        assert(rank_order()(ranked[i], ranked[m + j]));
    }
}

/// The view of a planet: its texts as character sequences.
pub struct PlanetView {
    pub username: Seq<char>,
    pub commits: i32,
    pub rank: usize,
    pub seed: Seq<char>,
    pub position: PositionUnits,
}

/// The view of a galaxy plan.
pub struct GalaxyPlanView {
    pub star_name: Seq<char>,
    pub star_stars: i32,
    pub star_forks: i32,
    pub planets: Seq<PlanetView>,
    pub asteroid_count: usize,
}

impl View for PlanetPlan {
    type V = PlanetView;

    open spec fn view(&self) -> PlanetView {
        PlanetView {
            username: self.username@,
            commits: self.commits,
            rank: self.rank,
            seed: self.seed@,
            position: self.position,
        }
    }
}

impl View for GalaxyPlan {
    type V = GalaxyPlanView;

    open spec fn view(&self) -> GalaxyPlanView {
        GalaxyPlanView {
            star_name: self.star_name@,
            star_stars: self.star_stars,
            star_forks: self.star_forks,
            planets: self.planets@.map_values(|p: PlanetPlan| p@),
            asteroid_count: self.asteroid_belt.count,
        }
    }
}

/// The layout is deterministic: the same repository and contributors always
/// give the same galaxy.
pub proof fn lemma_galaxy_deterministic(
    repo: RepositoryRecord,
    cs: Seq<ContributorWithStats>,
    a: GalaxyPlan,
    b: GalaxyPlan,
)
    requires
        is_galaxy_plan(repo, cs, a),
        is_galaxy_plan(repo, cs, b),
    ensures
        a@ == b@,
{
    let ranked = ranked_keys(cs);
    assert forall|i: int| 0 <= i < a.planets@.len() implies a@.planets[i] == b@.planets[i] by {
        assert(planet_for(a.planets@[i], repo.full_name@, ranked[i], i + 1));
        assert(planet_for(b.planets@[i], repo.full_name@, ranked[i], i + 1));
    }
    assert(a@.planets =~= b@.planets);
}

/// The layout does not depend on the order in which the contributors are
/// listed: contributor lists with the same usernames and commit counts give
/// the same galaxy.
pub proof fn lemma_galaxy_independent_of_listing_order(
    repo: RepositoryRecord,
    cs1: Seq<ContributorWithStats>,
    cs2: Seq<ContributorWithStats>,
    a: GalaxyPlan,
    b: GalaxyPlan,
)
    requires
        contributor_keys(cs1).to_multiset() == contributor_keys(cs2).to_multiset(),
        is_galaxy_plan(repo, cs1, a),
        is_galaxy_plan(repo, cs2, b),
    ensures
        a@ == b@,
{
    lemma_ranked_keys_facts(cs1);
    lemma_ranked_keys_facts(cs2);
    lemma_rank_order_total();
    lemma_sorted_unique(ranked_keys(cs1), ranked_keys(cs2), rank_order());
    let ranked = ranked_keys(cs1);
    assert forall|i: int| 0 <= i < a.planets@.len() implies a@.planets[i] == b@.planets[i] by {
        assert(planet_for(a.planets@[i], repo.full_name@, ranked[i], i + 1));
        assert(planet_for(b.planets@[i], repo.full_name@, ranked[i], i + 1));
    }
    assert(a@.planets =~= b@.planets);
}


/// What each part of a galaxy plan is, stated on the repository and the
/// ranked contributors: the star is the repository (full name, stars,
/// forks); there are `min(n, 50)` planets and `n - min(n, 50)` contributors
/// in the belt; the `i`-th planet is the `i`-th ranked contributor at rank
/// `i + 1`, seeded with `full_name:username:commits`, and its three position
/// numbers are the big-endian 16-bit values of digest bytes 0–1, 2–3, 4–5 of
/// the SHA-256 of the seed.
pub proof fn lemma_galaxy_plan_parts(
    repo: RepositoryRecord,
    cs: Seq<ContributorWithStats>,
    plan: GalaxyPlan,
    i: int,
)
    requires
        is_galaxy_plan(repo, cs, plan),
        0 <= i < plan.planets@.len(),
    ensures
        plan.star_name@ == repo.full_name@,
        plan.star_stars == repo.stars,
        plan.star_forks == repo.forks,
        plan.planets@.len() == (if cs.len() < 50 {
            cs.len() as int
        } else {
            50
        }),
        plan.asteroid_belt.count == cs.len() - plan.planets@.len(),
        ({
            let p = plan.planets@[i];
            let k = ranked_keys(cs)[i];
            let d = sha256_of_text(p.seed@);
            &&& p.username@ == k.0
            &&& p.commits == k.1
            &&& p.rank == i + 1
            &&& p.seed@ == repo.full_name@ + seq![':'] + k.0 + seq![':'] + decimal_text(k.1 as int)
            &&& p.position.angle as int == d[0] as int * 256 + d[1] as int
            &&& p.position.tilt as int == d[2] as int * 256 + d[3] as int
            &&& p.position.depth as int == d[4] as int * 256 + d[5] as int
        }),
{
    assert(planet_for(plan.planets@[i], repo.full_name@, ranked_keys(cs)[i], i + 1));
}

} // verus!
