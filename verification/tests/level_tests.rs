use mario_mim::colliders::ColliderKind;
use mario_mim::level::{build_level, level_markers, BoundaryColumn};
use mario_mim::profile::HeightProfile;
use mario_mim::session::GameSession;

fn chars(s: &str) -> Vec<char> {
    s.chars().collect()
}

#[test]
fn built_level_has_expected_extent() {
    let root = chars("extent");
    let layout = build_level(&root, 1);
    assert_eq!(layout.profile.samples.len(), 160);
    assert_eq!(layout.profile.samples[0].x, -10);
    assert_eq!(layout.profile.samples[159].x, 149);
}

#[test]
fn built_level_markers() {
    let root = chars("markers");
    let layout = build_level(&root, 2);
    let last = layout.profile.samples[159];
    assert_eq!(
        layout.markers.start,
        BoundaryColumn { x: -10, top: 20, kind: ColliderKind::Wall }
    );
    assert_eq!(
        layout.markers.finish,
        BoundaryColumn { x: 150, top: last.height + 20, kind: ColliderKind::FinishLine }
    );
}

#[test]
fn build_level_is_deterministic() {
    let root = chars("abc");
    let l1 = build_level(&root, 3);
    let l2 = build_level(&root, 3);
    assert_eq!(l1.profile.samples, l2.profile.samples);
    assert_eq!(l1.colliders, l2.colliders);
    assert_eq!(l1.spawns, l2.spawns);
    assert_eq!(l1.markers, l2.markers);
}

#[test]
fn adjacent_levels_differ() {
    // Distinctness: for a fixed seed, consecutive levels almost surely
    // differ in at least one terrain sample.
    let root = chars("abc");
    let l3 = build_level(&root, 3);
    let l4 = build_level(&root, 4);
    assert_ne!(l3.profile.samples, l4.profile.samples);
}

#[test]
fn markers_reject_empty_profile() {
    let p = HeightProfile { samples: Vec::new() };
    assert!(level_markers(&p).is_err());
}

#[test]
fn session_seed_editing() {
    let mut s = GameSession::new();
    assert_eq!(s.seed_chars(), Vec::<char>::new());
    s.add_char('a');
    s.add_char('!');
    s.add_char(' ');
    s.add_char('B');
    s.add_char('7');
    assert_eq!(s.seed_chars(), vec!['a', 'B', '7']);
    s.delete_last();
    assert_eq!(s.seed_chars(), vec!['a', 'B']);
    s.delete_last();
    s.delete_last();
    s.delete_last();
    assert_eq!(s.seed_chars(), Vec::<char>::new());
}

#[test]
fn session_seed_is_capped() {
    let mut s = GameSession::new();
    for _ in 0..40 {
        s.add_char('x');
    }
    assert_eq!(s.seed_chars().len(), 15);
}

#[test]
fn session_level_bookkeeping() {
    let mut s = GameSession::new();
    assert_eq!(s.level(), 1);
    assert_eq!(s.difficulty(), 1);
    for _ in 0..5 {
        s.increase_level();
    }
    assert_eq!(s.level(), 6);
    assert_eq!(s.difficulty(), 2);
    s.reset_level();
    assert_eq!(s.level(), 1);
}

#[test]
fn session_random_seed() {
    let mut s = GameSession::new();
    s.new_random_seed();
    let seed = s.seed_chars();
    assert_eq!(seed.len(), 8);
    assert!(seed.iter().all(|c| c.is_ascii_alphanumeric()));
}

#[test]
fn new_game_with_empty_seed_draws_one() {
    let mut s = GameSession::new();
    let _ = s.start_new_game();
    assert_eq!(s.seed_chars().len(), 8);
    assert_eq!(s.level(), 1);
}

#[test]
fn new_game_keeps_typed_seed() {
    let mut s = GameSession::new();
    s.add_char('z');
    s.add_char('9');
    let _ = s.start_new_game();
    assert_eq!(s.seed_chars(), vec!['z', '9']);
}

#[test]
fn restarting_a_level_replays_it() {
    let mut s = GameSession::new();
    s.add_char('q');
    s.increase_level();
    let mut g1 = s.start_level();
    let mut g2 = s.start_level();
    for _ in 0..200 {
        assert_eq!(g1.next_uniform_0_99(), g2.next_uniform_0_99());
    }
}
