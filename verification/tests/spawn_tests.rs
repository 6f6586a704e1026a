use mario_mim::generator::derive_for_level;
use mario_mim::profile::generate_profile;
use mario_mim::spawns::{derive_spawns, level_difficulty, EnemyKind, SpawnKind};

fn chars(s: &str) -> Vec<char> {
    s.chars().collect()
}

#[test]
fn difficulty_steps_every_three_levels() {
    assert_eq!(level_difficulty(1), 1);
    assert_eq!(level_difficulty(2), 1);
    assert_eq!(level_difficulty(3), 1);
    assert_eq!(level_difficulty(4), 2);
    assert_eq!(level_difficulty(6), 2);
    assert_eq!(level_difficulty(7), 3);
    assert_eq!(level_difficulty(10), 4);
}

#[test]
fn no_spawn_inside_safe_zone() {
    for level in 1..=6usize {
        let root = chars("safety");
        let g = derive_for_level(&root, level);
        let (g, p) = generate_profile(g, 10, 5, 145);
        let (_, spawns) = derive_spawns(&p, g, level, 5);
        assert!(!spawns.is_empty(), "expected some spawns at level {level}");
        for s in &spawns {
            assert!(s.x > 5, "spawn at x = {} inside the safe zone", s.x);
        }
    }
}

#[test]
fn spawns_sit_on_the_terrain() {
    let root = chars("ground");
    let g = derive_for_level(&root, 2);
    let (g, p) = generate_profile(g, 10, 5, 145);
    let (_, spawns) = derive_spawns(&p, g, 2, 5);
    for s in &spawns {
        let col = p.samples.iter().find(|c| c.x == s.x).expect("spawn off the map");
        assert_eq!(s.height, col.height);
    }
}

#[test]
fn enemy_kinds_rotate_with_level() {
    // Valgrinds rest when level % 3 == 1, bugs rest when level % 3 == 2,
    // and both roam otherwise.
    let root = chars("rotation");
    for (level, bugs_allowed, valgrinds_allowed) in
        [(1usize, true, false), (2, false, true), (3, true, true), (4, true, false)]
    {
        let g = derive_for_level(&root, level);
        let (g, p) = generate_profile(g, 10, 5, 145);
        let (_, spawns) = derive_spawns(&p, g, level, 5);
        let has_bug =
            spawns.iter().any(|s| s.kind == SpawnKind::Enemy(EnemyKind::Bug));
        let has_valgrind =
            spawns.iter().any(|s| s.kind == SpawnKind::Enemy(EnemyKind::Valgrind));
        if !bugs_allowed {
            assert!(!has_bug, "level {level} must suppress bugs");
        }
        if !valgrinds_allowed {
            assert!(!has_valgrind, "level {level} must suppress valgrinds");
        }
    }
}

#[test]
fn spawns_are_deterministic() {
    let root = chars("replay");
    let g1 = derive_for_level(&root, 3);
    let g2 = derive_for_level(&root, 3);
    let (g1, p1) = generate_profile(g1, 10, 5, 145);
    let (g2, p2) = generate_profile(g2, 10, 5, 145);
    let (_, s1) = derive_spawns(&p1, g1, 3, 5);
    let (_, s2) = derive_spawns(&p2, g2, 3, 5);
    assert_eq!(s1, s2);
}

#[test]
fn higher_difficulty_brings_more_enemies() {
    // With difficulty capped at certainty (level 58 gives difficulty 20),
    // every eligible column spawns its active enemy kind.
    let root = chars("crowded");
    let level = 58usize;
    assert_eq!(level_difficulty(level), 20);
    let g = derive_for_level(&root, level);
    let (g, p) = generate_profile(g, 10, 5, 145);
    let eligible = p.samples.iter().filter(|s| s.x > 5).count();
    let (_, spawns) = derive_spawns(&p, g, level, 5);
    // level % 3 == 1, so valgrinds rest and bugs spawn with certainty.
    let bugs =
        spawns.iter().filter(|s| s.kind == SpawnKind::Enemy(EnemyKind::Bug)).count();
    assert_eq!(bugs, eligible);
    assert!(!spawns.iter().any(|s| s.kind == SpawnKind::Enemy(EnemyKind::Valgrind)));
}
