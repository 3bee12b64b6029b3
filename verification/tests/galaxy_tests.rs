use server::db::{ContributorWithStats, RepositoryRecord};
use server::galaxy::{
    planet_seed, position_units, units_from_digest, GalaxyGenerator, PositionUnits, MAX_PLANETS,
};
use server::ranking::{lex_le_chars, rank_contributors, text_chars};
use sha2::{Digest, Sha256};

fn repo() -> RepositoryRecord {
    RepositoryRecord {
        id: 7,
        github_id: 99,
        owner: "octo".into(),
        name: "galaxy".into(),
        full_name: "octo/galaxy".into(),
        description: None,
        stars: 1200,
        forks: 30,
        open_issues: 4,
        language: Some("Rust".into()),
        created_at: 0,
        updated_at: 0,
        last_synced_at: 0,
    }
}

fn contributor(name: &str, commits: i32) -> ContributorWithStats {
    ContributorWithStats {
        id: 1,
        github_id: 1,
        username: name.into(),
        avatar_url: None,
        profile_url: "https://github.com".into(),
        commits,
        additions: 0,
        deletions: 0,
    }
}

#[test]
fn lexicographic_order_agrees_with_str() {
    let words = ["", "a", "ab", "b", "B", "Zed", "zed", "ä", "a\u{0}", "anna", "ann"];
    for x in words {
        for y in words {
            assert_eq!(lex_le_chars(&text_chars(x), &text_chars(y)), x <= y, "{x:?} {y:?}");
        }
    }
}

#[test]
fn ranking_by_commits_then_username() {
    let cs = vec![
        contributor("carol", 5),
        contributor("bob", 10),
        contributor("alice", 10),
        contributor("dave", -1),
        contributor("erin", 5),
    ];
    let ranked = rank_contributors(&cs);
    let order: Vec<(String, i32)> = ranked.iter().map(|e| (e.username.clone(), e.commits)).collect();
    assert_eq!(
        order,
        vec![
            ("alice".to_string(), 10),
            ("bob".to_string(), 10),
            ("carol".to_string(), 5),
            ("erin".to_string(), 5),
            ("dave".to_string(), -1),
        ]
    );
}

#[test]
fn ranking_matches_std_sort() {
    let mut cs = Vec::new();
    for i in 0..40 {
        cs.push(contributor(&format!("user{}", (i * 7) % 13), (i * 31 % 9) as i32));
    }
    let ranked = rank_contributors(&cs);
    let mut expected: Vec<(String, i32)> = cs.iter().map(|c| (c.username.clone(), c.commits)).collect();
    expected.sort_by(|a, b| b.1.cmp(&a.1).then_with(|| a.0.cmp(&b.0)));
    let got: Vec<(String, i32)> = ranked.iter().map(|e| (e.username.clone(), e.commits)).collect();
    assert_eq!(got, expected);
}

#[test]
fn digest_units_are_big_endian_pairs() {
    let d = [0x12u8, 0x34, 0xff, 0x00, 0x00, 0x01, 0x99];
    assert_eq!(
        units_from_digest(&d),
        PositionUnits { angle: 0x1234, tilt: 0xff00, depth: 0x0001 }
    );
}

#[test]
fn seed_text() {
    assert_eq!(planet_seed("octo/galaxy", "alice", 10), "octo/galaxy:alice:10");
    assert_eq!(planet_seed("o/r", "bob", -3), "o/r:bob:-3");
}

#[test]
fn position_from_sha256_of_seed() {
    let seed = "octo/galaxy:alice:10";
    let h = Sha256::digest(seed.as_bytes());
    let expected = PositionUnits {
        angle: u16::from_be_bytes([h[0], h[1]]),
        tilt: u16::from_be_bytes([h[2], h[3]]),
        depth: u16::from_be_bytes([h[4], h[5]]),
    };
    assert_eq!(position_units(seed), expected);
    // The digest of the empty text is e3b0c442...
    assert_eq!(
        position_units(""),
        PositionUnits { angle: 0xe3b0, tilt: 0xc442, depth: 0x98fc }
    );
}

#[test]
fn small_galaxy() {
    let cs = vec![contributor("bob", 3), contributor("alice", 9), contributor("carol", 3)];
    let plan = GalaxyGenerator::generate(&repo(), &cs);
    assert_eq!(plan.star_name, "octo/galaxy");
    assert_eq!(plan.star_stars, 1200);
    assert_eq!(plan.star_forks, 30);
    assert_eq!(plan.asteroid_belt.count, 0);
    let names: Vec<&str> = plan.planets.iter().map(|p| p.username.as_str()).collect();
    assert_eq!(names, vec!["alice", "bob", "carol"]);
    let ranks: Vec<usize> = plan.planets.iter().map(|p| p.rank).collect();
    assert_eq!(ranks, vec![1, 2, 3]);
    assert_eq!(plan.planets[0].seed, "octo/galaxy:alice:9");
    assert_eq!(plan.planets[0].commits, 9);
    assert_eq!(plan.planets[0].position, position_units("octo/galaxy:alice:9"));
}

#[test]
fn large_galaxy_keeps_top_fifty() {
    let mut cs = Vec::new();
    for i in 0..60 {
        cs.push(contributor(&format!("u{i:02}"), i));
    }
    let plan = GalaxyGenerator::generate(&repo(), &cs);
    assert_eq!(plan.planets.len(), MAX_PLANETS);
    assert_eq!(plan.asteroid_belt.count, 10);
    assert_eq!(plan.planets[0].username, "u59");
    assert_eq!(plan.planets[49].username, "u10");
    assert_eq!(plan.planets[49].rank, 50);
}

#[test]
fn empty_galaxy() {
    let plan = GalaxyGenerator::generate(&repo(), &[]);
    assert!(plan.planets.is_empty());
    assert_eq!(plan.asteroid_belt.count, 0);
}

#[test]
fn generation_is_deterministic() {
    let cs = vec![contributor("x", 1), contributor("y", 2), contributor("z", 2)];
    let mut reversed = cs.clone();
    reversed.reverse();
    let a = GalaxyGenerator::generate(&repo(), &cs);
    let b = GalaxyGenerator::generate(&repo(), &cs);
    let c = GalaxyGenerator::generate(&repo(), &reversed);
    assert_eq!(a, b);
    assert_eq!(a, c);
}
