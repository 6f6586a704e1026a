use mario_mim::generator::derive_for_level;
use mario_mim::profile::{build_profile, generate_profile};

fn chars(s: &str) -> Vec<char> {
    s.chars().collect()
}

#[test]
fn small_profile_exact_values() {
    // begin 2, safe 1, draws [50, 99, 75]:
    // columns x = -2..=3; flat through x = 1, then +2, then -1.
    let draws = vec![50u32, 99, 75];
    let p = build_profile(&draws, 2, 1);
    let xs: Vec<i32> = p.samples.iter().map(|s| s.x).collect();
    let hs: Vec<usize> = p.samples.iter().map(|s| s.height).collect();
    assert_eq!(xs, vec![-2, -1, 0, 1, 2, 3]);
    assert_eq!(hs, vec![0, 0, 0, 0, 0, 2]);
}

#[test]
fn delta_thresholds() {
    // Raise the terrain to 4 with two draws of 99, then probe each
    // threshold band with the third draw: the fourth play column shows
    // the applied delta.
    for (draw, expect) in [
        (0u32, 4usize),
        (70, 4),
        (71, 3),
        (80, 3),
        (81, 5),
        (90, 5),
        (91, 6),
        (99, 6),
    ] {
        let draws = vec![99u32, 99, draw, 0];
        let p = build_profile(&draws, 0, 0);
        let hs: Vec<usize> = p.samples.iter().map(|s| s.height).collect();
        assert_eq!(hs, vec![0, 2, 4, expect], "draw {draw}");
    }
}

#[test]
fn height_clamps_at_zero() {
    // A drop draw at ground level stays at ground level.
    let draws = vec![71u32, 71, 0];
    let p = build_profile(&draws, 0, 0);
    let hs: Vec<usize> = p.samples.iter().map(|s| s.height).collect();
    assert_eq!(hs, vec![0, 0, 0]);
}

#[test]
fn begin_and_safe_zone_are_flat() {
    let root = chars("flatstart");
    let g = derive_for_level(&root, 1);
    let (_, p) = generate_profile(g, 10, 5, 145);
    assert_eq!(p.samples.len(), 160);
    for (i, s) in p.samples.iter().enumerate() {
        assert_eq!(s.x, i as i32 - 10);
        if s.x <= 5 {
            assert_eq!(s.height, 0, "column {} not flat", s.x);
        }
    }
}

#[test]
fn generation_is_deterministic() {
    // Deriving the same level twice and walking each yields identical
    // profiles.
    let root = chars("seedling");
    let g1 = derive_for_level(&root, 2);
    let g2 = derive_for_level(&root, 2);
    let (_, p1) = generate_profile(g1, 10, 5, 145);
    let (_, p2) = generate_profile(g2, 10, 5, 145);
    assert_eq!(p1.samples, p2.samples);
}

#[test]
fn consecutive_deltas_are_bounded() {
    let root = chars("delta");
    let g = derive_for_level(&root, 1);
    let (_, p) = generate_profile(g, 10, 5, 145);
    for w in p.samples.windows(2) {
        let d = w[1].height as i64 - w[0].height as i64;
        assert!((-1..=2).contains(&d), "delta {d} out of range");
    }
}

#[test]
fn profile_width_follows_draw_count() {
    let draws = vec![50u32; 30];
    let p = build_profile(&draws, 4, 3);
    assert_eq!(p.samples.len(), 37);
    assert_eq!(p.samples[0].x, -4);
    assert_eq!(p.samples[36].x, 32);
}
