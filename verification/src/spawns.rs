//! Spawn-point derivation: per-column Bernoulli trials for enemies and
//! powerups, gated by the safe zone and scaled by level difficulty.

use vstd::prelude::*;

verus! {

use crate::generator::{SeededGenerator, stream_draw};
use crate::profile::{HeightProfile, Sample};

/// The enemy variants.
#[derive(Clone, Copy, Debug, PartialEq, Eq, Structural)]
pub enum EnemyKind {
    Bug,
    Valgrind,
}

/// The powerup variants.
#[derive(Clone, Copy, Debug, PartialEq, Eq, Structural)]
pub enum PowerupKind {
    Coffee,
    Rust,
}

/// What to spawn at a column.
#[derive(Clone, Copy, Debug, PartialEq, Eq, Structural)]
pub enum SpawnKind {
    Enemy(EnemyKind),
    Powerup(PowerupKind),
}

/// An instruction to spawn one entity: the column's x coordinate, the
/// ground height there (vertical placement offsets are a rendering
/// concern), and what to spawn.
#[derive(Clone, Copy, Debug, PartialEq, Eq, Structural)]
pub struct SpawnPoint {
    pub x: i32,
    pub height: usize,
    pub kind: SpawnKind,
}

/// Difficulty grows by one every three levels: `floor((level-1)/3) + 1`.
pub open spec fn spec_level_difficulty(level: int) -> int {
    (level - 1) / 3 + 1
}

/// Executable form of [`spec_level_difficulty`].
pub fn level_difficulty(level: usize) -> (r: usize)
    requires
        level >= 1,
    ensures
        r == spec_level_difficulty(level as int),
        r >= 1,
{
    (level - 1) / 3 + 1
}

/// Every three levels one of the two enemy kinds is suppressed entirely,
/// giving variety across a 3-level cycle: bugs rest when `level % 3 == 2`.
pub open spec fn bug_active(level: int) -> bool {
    level % 3 != 2
}

/// Valgrinds rest when `level % 3 == 1`.
pub open spec fn valgrind_active(level: int) -> bool {
    level % 3 != 1
}

/// The enemy spawn chance in percent: a 5% base scaled up by difficulty,
/// capped at certainty.
pub open spec fn enemy_threshold(diff: int) -> int {
    if diff >= 20 {
        100
    } else {
        5 * diff
    }
}

/// The coffee spawn chance in percent: a 5% base scaled down by
/// difficulty.
pub open spec fn coffee_threshold(diff: int) -> int {
    5int / diff
}

/// The weapon-powerup spawn chance in percent: a 3% base scaled down by
/// difficulty.
pub open spec fn rust_threshold(diff: int) -> int {
    3int / diff
}

/// How many of the first `m` columns lie beyond the safe zone. Each such
/// column consumes four draws, one per spawn kind.
pub open spec fn eligible_count(samples: Seq<Sample>, safe: int, m: int) -> int
    decreases m,
{
    if m <= 0 {
        0
    } else {
        eligible_count(samples, safe, m - 1) + (if samples[m - 1].x > safe {
            1int
        } else {
            0int
        })
    }
}

/// The spawn points rolled for one eligible column. The four kinds draw
/// in a fixed order — bug, valgrind, coffee, weapon powerup — and their
/// trials are independent, so several kinds may spawn at the same column.
/// A suppressed enemy kind still consumes its draw but never spawns.
pub open spec fn column_spawns(
    seed: Seq<char>,
    base: int,
    s: Sample,
    level: int,
    diff: int,
) -> Seq<SpawnPoint> {
    (if bug_active(level) && (stream_draw(seed, base) as int) < enemy_threshold(diff) {
        seq![(SpawnPoint { x: s.x, height: s.height, kind: SpawnKind::Enemy(EnemyKind::Bug) })]
    } else {
        Seq::empty()
    }) + (if valgrind_active(level) && (stream_draw(seed, base + 1) as int) < enemy_threshold(
        diff,
    ) {
        seq![(SpawnPoint { x: s.x, height: s.height, kind: SpawnKind::Enemy(EnemyKind::Valgrind) })]
    } else {
        Seq::empty()
    }) + (if (stream_draw(seed, base + 2) as int) < coffee_threshold(diff) {
        seq![(SpawnPoint { x: s.x, height: s.height, kind: SpawnKind::Powerup(PowerupKind::Coffee) })]
    } else {
        Seq::empty()
    }) + (if (stream_draw(seed, base + 3) as int) < rust_threshold(diff) {
        seq![(SpawnPoint { x: s.x, height: s.height, kind: SpawnKind::Powerup(PowerupKind::Rust) })]
    } else {
        Seq::empty()
    })
}

/// The spawn points rolled for the first `m` columns of the profile:
/// columns inside the safe zone roll nothing and consume no draws.
pub open spec fn spawns_upto(
    samples: Seq<Sample>,
    seed: Seq<char>,
    i0: int,
    level: int,
    diff: int,
    safe: int,
    m: int,
) -> Seq<SpawnPoint>
    decreases m,
{
    if m <= 0 {
        Seq::empty()
    } else {
        let prev = spawns_upto(samples, seed, i0, level, diff, safe, m - 1);
        if samples[m - 1].x > safe {
            prev + column_spawns(
                seed,
                i0 + 4 * eligible_count(samples, safe, m - 1),
                samples[m - 1],
                level,
                diff,
            )
        } else {
            prev
        }
    }
}

/// At most one column in `m` is eligible, and never a negative count.
proof fn lemma_eligible_count_bound(samples: Seq<Sample>, safe: int, m: int)
    ensures
        0 <= eligible_count(samples, safe, m) <= (if m >= 0 {
            m
        } else {
            0
        }),
    decreases m,
{
    if m > 0 {
        lemma_eligible_count_bound(samples, safe, m - 1);
    }
}

/// Every spawn rolled for one column sits at that column's x coordinate.
proof fn lemma_column_spawns_x(seed: Seq<char>, base: int, s: Sample, level: int, diff: int)
    ensures
        forall|t: int|
            0 <= t < column_spawns(seed, base, s, level, diff).len() ==> (#[trigger] column_spawns(
                seed,
                base,
                s,
                level,
                diff,
            )[t]).x == s.x,
{
}

/// Safe-zone exclusion: every derived spawn point lies strictly beyond
/// the safe zone.
pub proof fn lemma_safe_zone_exclusion(
    samples: Seq<Sample>,
    seed: Seq<char>,
    i0: int,
    level: int,
    diff: int,
    safe: int,
    m: int,
)
    ensures
        forall|t: int|
            0 <= t < spawns_upto(samples, seed, i0, level, diff, safe, m).len() ==> (
            #[trigger] spawns_upto(samples, seed, i0, level, diff, safe, m)[t]).x > safe,
    decreases m,
{
    if m > 0 {
        lemma_safe_zone_exclusion(samples, seed, i0, level, diff, safe, m - 1);
        if samples[m - 1].x > safe {
            lemma_column_spawns_x(
                seed,
                i0 + 4 * eligible_count(samples, safe, m - 1),
                samples[m - 1],
                level,
                diff,
            );
        }
    }
}

/// Roll the spawn points for a whole profile: for every column beyond the
/// safe zone, four independent trials — bug, valgrind, coffee, weapon
/// powerup — each a threshold comparison against one uniform draw. Enemy
/// chances scale up with difficulty and powerup chances scale down, and
/// the enemy kinds rotate on a 3-level cycle.
pub fn derive_spawns(
    profile: &HeightProfile,
    gen: SeededGenerator,
    level: usize,
    safe_zone_width: usize,
) -> (r: (SeededGenerator, Vec<SpawnPoint>))
    requires
        level >= 1,
        safe_zone_width <= i32::MAX,
        gen.draws_made() + 4 * profile@.len() <= usize::MAX,
    ensures
        r.0.seed_view() == gen.seed_view(),
        r.0.draws_made() == gen.draws_made() + 4 * eligible_count(
            profile@,
            safe_zone_width as int,
            profile@.len() as int,
        ),
        r.1@ == spawns_upto(
            profile@,
            gen.seed_view(),
            gen.draws_made(),
            level as int,
            spec_level_difficulty(level as int),
            safe_zone_width as int,
            profile@.len() as int,
        ),
        forall|t: int| 0 <= t < r.1@.len() ==> (#[trigger] r.1@[t]).x > safe_zone_width,
{
    let ghost seed = gen.seed_view();
    let ghost i0 = gen.draws_made();
    let ghost safe = safe_zone_width as int;
    let diff = level_difficulty(level);
    let bug_on = level % 3 != 2;
    let valgrind_on = level % 3 != 1;
    let enemy_t: usize = if diff >= 20 {
        100
    } else {
        5 * diff
    };
    let coffee_t: usize = 5 / diff;
    let rust_t: usize = 3 / diff;
    let safe_x = safe_zone_width as i32;
    let n = profile.len();
    let mut g = gen;
    let mut out: Vec<SpawnPoint> = Vec::new();
    let mut i: usize = 0;
    while i < n
        invariant
            i <= n,
            n == profile@.len(),
            level >= 1,
            diff == spec_level_difficulty(level as int),
            diff >= 1,
            bug_on == bug_active(level as int),
            valgrind_on == valgrind_active(level as int),
            enemy_t == enemy_threshold(diff as int),
            coffee_t == coffee_threshold(diff as int),
            rust_t == rust_threshold(diff as int),
            safe == safe_zone_width as int,
            safe_x == safe_zone_width as i32,
            safe_zone_width <= i32::MAX,
            seed == gen.seed_view(),
            i0 == gen.draws_made(),
            g.seed_view() == seed,
            g.draws_made() == i0 + 4 * eligible_count(profile@, safe, i as int),
            i0 + 4 * profile@.len() <= usize::MAX,
            out@ == spawns_upto(profile@, seed, i0, level as int, diff as int, safe, i as int),
        decreases n - i,
    {
        let s = profile.sample_at(i);
        proof {
            lemma_eligible_count_bound(profile@, safe, i as int);
        }
        if s.x > safe_x {
            let ghost base = g.draws_made();
            let ghost prev = out@;
            let d_bug = g.next_uniform_0_99();
            let d_valgrind = g.next_uniform_0_99();
            let d_coffee = g.next_uniform_0_99();
            let d_rust = g.next_uniform_0_99();
            if bug_on && (d_bug as usize) < enemy_t {
                out.push(
                    SpawnPoint { x: s.x, height: s.height, kind: SpawnKind::Enemy(EnemyKind::Bug) },
                );
            }
            if valgrind_on && (d_valgrind as usize) < enemy_t {
                out.push(
                    SpawnPoint {
                        x: s.x,
                        height: s.height,
                        kind: SpawnKind::Enemy(EnemyKind::Valgrind),
                    },
                );
            }
            if (d_coffee as usize) < coffee_t {
                out.push(
                    SpawnPoint {
                        x: s.x,
                        height: s.height,
                        kind: SpawnKind::Powerup(PowerupKind::Coffee),
                    },
                );
            }
            if (d_rust as usize) < rust_t {
                out.push(
                    SpawnPoint {
                        x: s.x,
                        height: s.height,
                        kind: SpawnKind::Powerup(PowerupKind::Rust),
                    },
                );
            }
            proof {
                assert(out@ =~= prev + column_spawns(seed, base, s, level as int, diff as int));
            }
        }
        i = i + 1;
        proof {
            assert(out@ =~= spawns_upto(profile@, seed, i0, level as int, diff as int, safe, i as int));
        }
    }
    proof {
        lemma_safe_zone_exclusion(profile@, seed, i0, level as int, diff as int, safe, n as int);
    }
    (g, out)
}

} // verus!
