//! The order in which contributors are ranked: by commits, most first, and
//! among equal commit counts by username in ascending (code point) order, as
//! `String`'s `Ord` compares them.
use vstd::prelude::*;
use vstd::relations::{sorted_by, total_ordering};
use vstd::seq_lib::to_multiset_remove;
use vstd::seq_lib::to_multiset_contains;
use vstd::seq_lib::to_multiset_len;
use vstd::seq_lib::to_multiset_insert;
use vstd::string::*;
use crate::db::ContributorWithStats;

verus! {

/// What a contributor is ranked by: the username and the commit count.
pub type RankKey = (Seq<char>, i32);

/// Lexicographic order on character sequences (`a` is not after `b`), the
/// order of `str`'s `Ord`: UTF-8 byte order and code point order agree.
pub open spec fn lex_le(a: Seq<char>, b: Seq<char>) -> bool
    decreases a.len(),
{
    if a.len() == 0 {
        true
    } else if b.len() == 0 {
        false
    } else if a[0] != b[0] {
        a[0] < b[0]
    } else {
        lex_le(a.drop_first(), b.drop_first())
    }
}

/// `a` ranks no later than `b`: more commits, or as many and a username that
/// does not come after `b`'s.
pub open spec fn ranks_no_later(a: RankKey, b: RankKey) -> bool {
    a.1 > b.1 || (a.1 == b.1 && lex_le(a.0, b.0))
}

/// The ranking order as a relation.
pub open spec fn rank_order() -> spec_fn(RankKey, RankKey) -> bool {
    |a: RankKey, b: RankKey| ranks_no_later(a, b)
}

pub proof fn lemma_lex_le_reflexive(a: Seq<char>)
    ensures
        lex_le(a, a),
    decreases a.len(),
{
    if a.len() > 0 {
        lemma_lex_le_reflexive(a.drop_first());
    }
}

pub proof fn lemma_lex_le_antisymmetric(a: Seq<char>, b: Seq<char>)
    requires
        lex_le(a, b),
        lex_le(b, a),
    ensures
        a == b,
    decreases a.len(),
{
    if a.len() == 0 {
        assert(b.len() == 0);
        assert(a =~= b);
    } else {
        assert(b.len() > 0);
        assert(a[0] == b[0]);
        lemma_lex_le_antisymmetric(a.drop_first(), b.drop_first());
        assert forall|i: int| 0 <= i < a.len() implies a[i] == b[i] by {
            if i > 0 {
                assert(a[i] == a.drop_first()[i - 1]);
                assert(b[i] == b.drop_first()[i - 1]);
            }
        }
        assert(a =~= b);
    }
}

pub proof fn lemma_lex_le_transitive(a: Seq<char>, b: Seq<char>, c: Seq<char>)
    requires
        lex_le(a, b),
        lex_le(b, c),
    ensures
        lex_le(a, c),
    decreases a.len(),
{
    if a.len() > 0 {
        assert(b.len() > 0);
        assert(c.len() > 0);
        if a[0] == b[0] && b[0] == c[0] {
            lemma_lex_le_transitive(a.drop_first(), b.drop_first(), c.drop_first());
        }
    }
}

pub proof fn lemma_lex_le_total(a: Seq<char>, b: Seq<char>)
    ensures
        lex_le(a, b) || lex_le(b, a),
    decreases a.len(),
{
    if a.len() > 0 && b.len() > 0 && a[0] == b[0] {
        lemma_lex_le_total(a.drop_first(), b.drop_first());
    }
}

/// The ranking order is a total order on rank keys.
pub proof fn lemma_rank_order_total()
    ensures
        total_ordering(rank_order()),
{
    let r = rank_order();
    assert forall|x: RankKey| #[trigger] r(x, x) by {
        lemma_lex_le_reflexive(x.0);
    }
    assert forall|x: RankKey, y: RankKey| #[trigger] r(x, y) && #[trigger] r(y, x) implies x == y by {
        lemma_lex_le_antisymmetric(x.0, y.0);
    }
    assert forall|x: RankKey, y: RankKey, z: RankKey|
        #[trigger] r(x, y) && #[trigger] r(y, z) implies r(x, z) by {
        if x.1 == y.1 && y.1 == z.1 {
            lemma_lex_le_transitive(x.0, y.0, z.0);
        }
    }
    assert forall|x: RankKey, y: RankKey| #[trigger] r(x, y) || #[trigger] r(y, x) by {
        lemma_lex_le_total(x.0, y.0);
    }
}

/// Under a total order, a sorted sequence is determined by its elements:
/// two sorted sequences with the same multiset of elements are equal.
pub proof fn lemma_sorted_unique<T>(a: Seq<T>, b: Seq<T>, leq: spec_fn(T, T) -> bool)
    requires
        total_ordering(leq),
        sorted_by(a, leq),
        sorted_by(b, leq),
        a.to_multiset() == b.to_multiset(),
    ensures
        a == b,
    decreases a.len(),
{
    to_multiset_len(a);
    to_multiset_len(b);
    if a.len() == 0 {
        assert(a =~= b);
    } else {
        // Both heads are the least element of the shared multiset.
        to_multiset_contains(a, a[0]);
        to_multiset_contains(b, a[0]);
        to_multiset_contains(b, b[0]);
        to_multiset_contains(a, b[0]);
        assert(a.contains(a[0]));
        assert(b.contains(a[0]));
        let j = choose|j: int| 0 <= j < b.len() && b[j] == a[0];
        if j > 0 {
            assert(leq(b[0], b[j]));
        }
        assert(leq(b[0], a[0]));
        assert(a.contains(b[0]));
        let k = choose|k: int| 0 <= k < a.len() && a[k] == b[0];
        if k > 0 {
            assert(leq(a[0], a[k]));
        }
        assert(leq(a[0], b[0]));
        assert(a[0] == b[0]);
        to_multiset_remove(a, 0);
        to_multiset_remove(b, 0);
        assert(a.remove(0) =~= a.drop_first());
        assert(b.remove(0) =~= b.drop_first());
        let a1 = a.drop_first();
        let b1 = b.drop_first();
        assert(sorted_by(a1, leq)) by {
            assert forall|i: int, j: int| 0 <= i < j < a1.len() implies #[trigger] leq(
                a1[i],
                a1[j],
            ) by {
                assert(leq(a[i + 1], a[j + 1]));
            }
        }
        assert(sorted_by(b1, leq)) by {
            assert forall|i: int, j: int| 0 <= i < j < b1.len() implies #[trigger] leq(
                b1[i],
                b1[j],
            ) by {
                assert(leq(b[i + 1], b[j + 1]));
            }
        }
        lemma_sorted_unique(a1, b1, leq);
        assert forall|i: int| 0 <= i < a.len() implies a[i] == b[i] by {
            if i > 0 {
                assert(a[i] == a1[i - 1]);
                assert(b[i] == b1[i - 1]);
            }
        }
        assert(a =~= b);
    }
}


proof fn lemma_rank_transitive(a: RankKey, b: RankKey, c: RankKey)
    requires
        ranks_no_later(a, b),
        ranks_no_later(b, c),
    ensures
        ranks_no_later(a, c),
{
    if a.1 == b.1 && b.1 == c.1 {
        lemma_lex_le_transitive(a.0, b.0, c.0);
    }
}

proof fn lemma_rank_total(a: RankKey, b: RankKey)
    ensures
        ranks_no_later(a, b) || ranks_no_later(b, a),
{
    lemma_lex_le_total(a.0, b.0);
}

/// The rank keys of contributors, in the order given.
pub open spec fn contributor_keys(cs: Seq<ContributorWithStats>) -> Seq<RankKey> {
    cs.map_values(|c: ContributorWithStats| (c.username@, c.commits))
}

/// The rank keys of all contributors, best ranked first.
pub open spec fn ranked_keys(cs: Seq<ContributorWithStats>) -> Seq<RankKey> {
    contributor_keys(cs).sort_by(rank_order())
}

/// A contributor being ranked, with the username's characters at hand.
#[derive(Debug, Clone, PartialEq, Eq)]
pub struct RankEntry {
    pub username: String,
    pub chars: Vec<char>,
    pub commits: i32,
}

pub open spec fn entry_key(e: RankEntry) -> RankKey {
    (e.username@, e.commits)
}

pub open spec fn entry_keys(s: Seq<RankEntry>) -> Seq<RankKey> {
    s.map_values(|e: RankEntry| entry_key(e))
}

pub open spec fn entries_well_formed(s: Seq<RankEntry>) -> bool {
    forall|i: int| 0 <= i < s.len() ==> (#[trigger] s[i]).chars@ == s[i].username@
}

/// The characters of `s`, one by one.
pub fn text_chars(s: &str) -> (r: Vec<char>)
    ensures
        r@ == s@,
{
    let n = s.unicode_len();
    let mut r: Vec<char> = Vec::new();
    let mut i: usize = 0;
    while i < n
        invariant
            n == s@.len(),
            i <= n,
            r@ == s@.take(i as int),
        decreases n - i,
    {
        let c = s.get_char(i);
        r.push(c);
        assert(s@.take(i + 1) =~= s@.take(i as int).push(c));
        i = i + 1;
    }
    assert(s@.take(n as int) =~= s@);
    r
}

/// `a <= b` in lexicographic order.
pub fn lex_le_chars(a: &Vec<char>, b: &Vec<char>) -> (r: bool)
    ensures
        r == lex_le(a@, b@),
{
    let mut i: usize = 0;
    assert(a@.skip(0) =~= a@);
    assert(b@.skip(0) =~= b@);
    while i < a.len() && i < b.len()
        invariant
            i <= a.len(),
            i <= b.len(),
            lex_le(a@, b@) == lex_le(a@.skip(i as int), b@.skip(i as int)),
        decreases a.len() - i,
    {
        if a[i] != b[i] {
            return a[i] < b[i];
        }
        assert(a@.skip(i as int).drop_first() =~= a@.skip(i + 1));
        assert(b@.skip(i as int).drop_first() =~= b@.skip(i + 1));
        i = i + 1;
    }
    i == a.len()
}

/// Does `a` rank no later than `b`?
pub fn ranks_no_later_entry(a: &RankEntry, b: &RankEntry) -> (r: bool)
    requires
        a.chars@ == a.username@,
        b.chars@ == b.username@,
    ensures
        r == ranks_no_later(entry_key(*a), entry_key(*b)),
{
    a.commits > b.commits || (a.commits == b.commits && lex_le_chars(&a.chars, &b.chars))
}

/// Inserting into a sorted sequence just before the first element that ranks
/// strictly later keeps it sorted.
proof fn lemma_insert_keeps_sorted(k: Seq<RankKey>, p: int, x: RankKey)
    requires
        0 <= p <= k.len(),
        sorted_by(k, rank_order()),
        forall|j: int| 0 <= j < p ==> ranks_no_later(#[trigger] k[j], x),
        p < k.len() ==> ranks_no_later(x, k[p]),
    ensures
        sorted_by(k.insert(p, x), rank_order()),
{
    let n = k.insert(p, x);
    k.insert_ensures(p, x);
    assert forall|i: int, j: int| 0 <= i < j < n.len() implies #[trigger] rank_order()(
        n[i],
        n[j],
    ) by {
        if j < p {
            assert(rank_order()(k[i], k[j]));
        } else if j == p {
            assert(ranks_no_later(k[i], x));
        } else if i < p {
            assert(n[j] == k[j - 1]);
            assert(rank_order()(k[i], k[j - 1]));
        } else if i == p {
            assert(n[j] == k[j - 1]);
            if j - 1 > p {
                assert(rank_order()(k[p], k[j - 1]));
                lemma_rank_transitive(x, k[p], k[j - 1]);
            }
        } else {
            assert(n[i] == k[i - 1]);
            assert(n[j] == k[j - 1]);
            assert(rank_order()(k[i - 1], k[j - 1]));
        }
    }
}

/// Puts `x` into the sorted entries at its place in the ranking.
fn insert_ranked(v: &mut Vec<RankEntry>, x: RankEntry)
    requires
        sorted_by(entry_keys(old(v)@), rank_order()),
        entries_well_formed(old(v)@),
        x.chars@ == x.username@,
    ensures
        sorted_by(entry_keys(final(v)@), rank_order()),
        entries_well_formed(final(v)@),
        entry_keys(final(v)@).to_multiset() == entry_keys(old(v)@).to_multiset().insert(
            entry_key(x),
        ),
{
    let ghost k = entry_keys(v@);
    let mut p: usize = 0;
    while p < v.len() && ranks_no_later_entry(&v[p], &x)
        invariant
            p <= v.len(),
            k == entry_keys(v@),
            entries_well_formed(v@),
            x.chars@ == x.username@,
            forall|j: int| 0 <= j < p ==> ranks_no_later(#[trigger] k[j], entry_key(x)),
        decreases v.len() - p,
    {
        assert(k[p as int] == entry_key(v@[p as int]));
        p = p + 1;
    }
    proof {
        if p < v.len() {
            assert(k[p as int] == entry_key(v@[p as int]));
            lemma_rank_total(k[p as int], entry_key(x));
        }
        lemma_insert_keeps_sorted(k, p as int, entry_key(x));
        to_multiset_insert(k, p as int, entry_key(x));
    }
    let ghost before = v@;
    v.insert(p, x);
    proof {
        before.insert_ensures(p as int, x);
        assert(entry_keys(v@) =~= k.insert(p as int, entry_key(x)));
        assert forall|i: int| 0 <= i < v@.len() implies (#[trigger] v@[i]).chars@ == v@[i].username@ by {
            if i < p {
                assert(v@[i] == before[i]);
            } else if i > p {
                assert(v@[i] == before[i - 1]);
            }
        }
    }
}

/// The contributors' usernames and commit counts, best ranked first.
pub fn rank_contributors(cs: &[ContributorWithStats]) -> (r: Vec<RankEntry>)
    ensures
        entry_keys(r@) == ranked_keys(cs@),
        entries_well_formed(r@),
        r@.len() == cs@.len(),
{
    let ghost keys = contributor_keys(cs@);
    let mut v: Vec<RankEntry> = Vec::new();
    let mut i: usize = 0;
    assert(entry_keys(v@) =~= Seq::<RankKey>::empty());
    assert(keys.take(0) =~= Seq::<RankKey>::empty());
    while i < cs.len()
        invariant
            i <= cs.len(),
            keys == contributor_keys(cs@),
            sorted_by(entry_keys(v@), rank_order()),
            entries_well_formed(v@),
            entry_keys(v@).to_multiset() == keys.take(i as int).to_multiset(),
        decreases cs.len() - i,
    {
        let c = &cs[i];
        let e = RankEntry {
            username: c.username.clone(),
            chars: text_chars(c.username.as_str()),
            commits: c.commits,
        };
        assert(entry_key(e) == keys[i as int]);
        insert_ranked(&mut v, e);
        proof {
            assert(keys.take(i + 1) =~= keys.take(i as int).push(keys[i as int]));
            vstd::seq_lib::to_multiset_build(keys.take(i as int), keys[i as int]);
        }
        i = i + 1;
    }
    proof {
        assert(keys.take(cs.len() as int) =~= keys);
        lemma_rank_order_total();
        keys.lemma_sort_by_ensures(rank_order());
        lemma_sorted_unique(entry_keys(v@), keys.sort_by(rank_order()), rank_order());
        to_multiset_len(entry_keys(v@));
        to_multiset_len(keys);
    }
    v
}


/// Ranking compares commit counts first: more commits always rank earlier;
/// only equal counts are ordered by username.
pub proof fn lemma_ranking_by_commits_then_name(a: RankKey, b: RankKey)
    ensures
        a.1 > b.1 ==> ranks_no_later(a, b) && !ranks_no_later(b, a),
        a.1 == b.1 ==> (ranks_no_later(a, b) <==> lex_le(a.0, b.0)),
{
}

/// `a` is not after `b` in lexicographic order exactly when `a` is a prefix
/// of `b`, or at the first position where they differ `a` has the smaller
/// character.
pub proof fn lemma_lex_le_meaning(a: Seq<char>, b: Seq<char>)
    ensures
        lex_le(a, b) <==> (a.is_prefix_of(b) || exists|k: int|
            0 <= k < a.len() && k < b.len() && a.take(k) == b.take(k) && #[trigger] a[k] < b[k]),
    decreases a.len(),
{
    if a.len() == 0 {
        assert(a.is_prefix_of(b)) by {
            assert(a =~= b.subrange(0, 0));
        }
    } else if b.len() == 0 {
        assert(!a.is_prefix_of(b));
    } else if a[0] != b[0] {
        assert(!a.is_prefix_of(b)) by {
            if a.is_prefix_of(b) {
                assert(a[0] == b.subrange(0, a.len() as int)[0]);
            }
        }
        if a[0] < b[0] {
            assert(a.take(0) =~= b.take(0));
            assert(a[0] < b[0]);
        } else {
            assert forall|k: int|
                0 <= k < a.len() && k < b.len() && a.take(k) == b.take(k) implies !(#[trigger] a[k]
                < b[k]) by {
                if k > 0 {
                    assert(a.take(k)[0] == b.take(k)[0]);
                }
            }
        }
    } else {
        let a1 = a.drop_first();
        let b1 = b.drop_first();
        lemma_lex_le_meaning(a1, b1);
        assert(a.is_prefix_of(b) <==> a1.is_prefix_of(b1)) by {
            if a.is_prefix_of(b) {
                assert(a1 =~= b1.subrange(0, a1.len() as int)) by {
                    assert forall|i: int| 0 <= i < a1.len() implies a1[i] == b1.subrange(
                        0,
                        a1.len() as int,
                    )[i] by {
                        assert(a[i + 1] == b.subrange(0, a.len() as int)[i + 1]);
                    }
                }
            }
            if a1.is_prefix_of(b1) {
                assert(a =~= b.subrange(0, a.len() as int)) by {
                    assert forall|i: int| 0 <= i < a.len() implies a[i] == b.subrange(
                        0,
                        a.len() as int,
                    )[i] by {
                        if i > 0 {
                            assert(a1[i - 1] == b1.subrange(0, a1.len() as int)[i - 1]);
                        }
                    }
                }
            }
        }
        if exists|k: int|
            0 <= k < a.len() && k < b.len() && a.take(k) == b.take(k) && #[trigger] a[k] < b[k] {
            let k = choose|k: int|
                0 <= k < a.len() && k < b.len() && a.take(k) == b.take(k) && #[trigger] a[k]
                    < b[k];
            assert(k > 0);
            let j = k - 1;
            let ta = a1.take(j);
            let tb = b1.take(j);
            assert(ta =~= tb) by {
                assert forall|i: int| 0 <= i < j implies #[trigger] ta[i] == tb[i] by {
                    assert(a.take(k)[i + 1] == b.take(k)[i + 1]);
                }
            }
            assert(a1[j] == a[k]);
            assert(b1[j] == b[k]);
        }
        if exists|k: int|
            0 <= k < a1.len() && k < b1.len() && a1.take(k) == b1.take(k) && #[trigger] a1[k] < b1[k] {
            let k = choose|k: int|
                0 <= k < a1.len() && k < b1.len() && a1.take(k) == b1.take(k) && #[trigger] a1[k]
                    < b1[k];
            let j = k + 1;
            let ta = a.take(j);
            let tb = b.take(j);
            assert(ta =~= tb) by {
                assert forall|i: int| 0 <= i < j implies #[trigger] ta[i] == tb[i] by {
                    if i > 0 {
                        assert(a1.take(k)[i - 1] == b1.take(k)[i - 1]);
                    }
                }
            }
            assert(a[j] == a1[k]);
            assert(b[j] == b1[k]);
        }
    }
}

} // verus!
