//! Skyline decomposition of a height profile into merged rectangular
//! collision regions: for every height level, each maximal run of columns
//! at least that tall becomes one region.

use vstd::prelude::*;

verus! {

use crate::profile::{HeightProfile, Sample};

/// What a collision region is for.
#[derive(Clone, Copy, Debug, PartialEq, Eq, Structural)]
pub enum ColliderKind {
    Wall,
    FinishLine,
}

/// An axis-aligned solid rectangle: the columns `x_start..=x_end` at one
/// height level (one tile tall, centred on the tile grid).
#[derive(Clone, Copy, Debug, PartialEq, Eq, Structural)]
pub struct ColliderRegion {
    pub x_start: i32,
    pub x_end: i32,
    pub level: usize,
    pub kind: ColliderKind,
}

/// Why level generation can fail.
#[derive(Clone, Copy, Debug, PartialEq, Eq, Structural)]
pub enum LevelGenError {
    /// The height profile had no columns at all.
    EmptyProfile,
}

/// `r` is a maximal horizontal run of `samples` at its height level: every
/// column it spans is at least `r.level` tall, and it can be extended in
/// neither direction.
pub open spec fn region_is_maximal_run(samples: Seq<Sample>, r: ColliderRegion) -> bool {
    let n = samples.len() as int;
    let x0 = samples[0].x as int;
    &&& r.kind == ColliderKind::Wall
    &&& x0 <= r.x_start <= r.x_end < x0 + n
    &&& forall|i: int|
        r.x_start - x0 <= i <= r.x_end - x0 ==> (#[trigger] samples[i]).height >= r.level
    &&& (r.x_start == x0 || samples[r.x_start - 1 - x0].height < r.level)
    &&& (r.x_end == x0 + n - 1 || samples[r.x_end + 1 - x0].height < r.level)
}

/// Some region of `regions` covers the tile at column index `i` and
/// height level `lv`.
pub open spec fn has_region_at(
    samples: Seq<Sample>,
    regions: Seq<ColliderRegion>,
    i: int,
    lv: int,
) -> bool {
    exists|k: int|
        0 <= k < regions.len() && (#[trigger] regions[k]).level == lv && regions[k].x_start
            <= samples[0].x + i <= regions[k].x_end
}

/// Every region is a maximal run of the profile.
pub open spec fn colliders_sound(samples: Seq<Sample>, regions: Seq<ColliderRegion>) -> bool {
    forall|k: int|
        0 <= k < regions.len() ==> region_is_maximal_run(samples, #[trigger] regions[k])
}

/// Every solid tile of the profile — each column, from ground level up to
/// its height — is covered by some region.
pub open spec fn colliders_cover(samples: Seq<Sample>, regions: Seq<ColliderRegion>) -> bool {
    forall|i: int, lv: int|
        0 <= i < samples.len() && 0 <= lv <= (samples[i]).height ==> #[trigger] has_region_at(
            samples,
            regions,
            i,
            lv,
        )
}

/// Regions at the same height level appear in increasing x order with a
/// gap of at least one column between them.
pub open spec fn colliders_ordered(regions: Seq<ColliderRegion>) -> bool {
    forall|k1: int, k2: int|
        0 <= k1 < k2 < regions.len() && (#[trigger] regions[k1]).level == (
        #[trigger] regions[k2]).level ==> regions[k1].x_end + 1 < regions[k2].x_start
}

/// Regions appear grouped by ascending height level.
pub open spec fn colliders_leveled(regions: Seq<ColliderRegion>) -> bool {
    forall|k1: int, k2: int|
        0 <= k1 < k2 < regions.len() ==> (#[trigger] regions[k1]).level <= (
        #[trigger] regions[k2]).level
}

/// Minimality: two distinct regions at the same height level are neither
/// overlapping nor adjacent in x — otherwise they would have been merged.
pub proof fn lemma_collider_minimality(regions: Seq<ColliderRegion>, k1: int, k2: int)
    requires
        colliders_ordered(regions),
        0 <= k1 < regions.len(),
        0 <= k2 < regions.len(),
        k1 != k2,
        regions[k1].level == regions[k2].level,
    ensures
        regions[k1].x_end + 1 < regions[k2].x_start || regions[k2].x_end + 1
            < regions[k1].x_start,
{
}

/// Appending a region keeps every tile that was already covered covered.
proof fn lemma_has_region_push(
    samples: Seq<Sample>,
    regions: Seq<ColliderRegion>,
    r: ColliderRegion,
    i: int,
    lv: int,
)
    requires
        has_region_at(samples, regions, i, lv),
    ensures
        has_region_at(samples, regions.push(r), i, lv),
{
    let k = choose|k: int|
        0 <= k < regions.len() && (#[trigger] regions[k]).level == lv && regions[k].x_start
            <= samples[0].x + i <= regions[k].x_end;
    assert(regions.push(r)[k] == regions[k]);
}

/// The largest height in the profile.
fn max_height(profile: &HeightProfile) -> (r: usize)
    requires
        profile@.len() >= 1,
    ensures
        forall|j: int| 0 <= j < profile@.len() ==> (#[trigger] profile@[j]).height <= r,
        exists|j: int| 0 <= j < profile@.len() && (#[trigger] profile@[j]).height == r,
{
    let n = profile.len();
    let mut r = profile.sample_at(0).height;
    let mut i: usize = 1;
    while i < n
        invariant
            1 <= i <= n,
            n == profile@.len(),
            forall|j: int| 0 <= j < i ==> (#[trigger] profile@[j]).height <= r,
            exists|j: int| 0 <= j < i && (#[trigger] profile@[j]).height == r,
        decreases n - i,
    {
        let h = profile.sample_at(i).height;
        if h > r {
            r = h;
        }
        i = i + 1;
    }
    r
}

/// The maximal runs of the profile at one height level, left to right.
fn runs_at_level(profile: &HeightProfile, lv: usize) -> (runs: Vec<ColliderRegion>)
    requires
        profile.wf(),
        profile@.len() >= 1,
    ensures
        forall|k: int|
            0 <= k < runs@.len() ==> region_is_maximal_run(profile@, #[trigger] runs@[k])
                && runs@[k].level == lv,
        forall|j: int|
            0 <= j < profile@.len() && lv <= (profile@[j]).height ==> #[trigger] has_region_at(
                profile@,
                runs@,
                j,
                lv as int,
            ),
        forall|k1: int, k2: int|
            0 <= k1 < k2 < runs@.len() ==> (#[trigger] runs@[k1]).x_end + 1 < (
            #[trigger] runs@[k2]).x_start,
{
    let n = profile.len();
    let ghost x0 = profile@[0].x as int;
    let mut runs: Vec<ColliderRegion> = Vec::new();
    let mut in_run: bool = false;
    let mut run_start: usize = 0;
    let mut i: usize = 0;
    while i < n
        invariant
            profile.wf(),
            n == profile@.len(),
            n >= 1,
            x0 == profile@[0].x as int,
            i <= n,
            in_run ==> run_start < i,
            in_run ==> (forall|j: int|
                run_start <= j < i ==> (#[trigger] profile@[j]).height >= lv),
            in_run ==> (run_start == 0 || profile@[run_start - 1].height < lv),
            !in_run ==> (i == 0 || profile@[i - 1].height < lv),
            forall|k: int|
                0 <= k < runs@.len() ==> region_is_maximal_run(profile@, #[trigger] runs@[k])
                    && runs@[k].level == lv,
            forall|k: int|
                0 <= k < runs@.len() ==> (#[trigger] runs@[k]).x_end - x0 < (if in_run {
                    run_start as int
                } else {
                    i as int
                }),
            forall|j: int|
                0 <= j < (if in_run {
                    run_start as int
                } else {
                    i as int
                }) && lv <= (profile@[j]).height ==> #[trigger] has_region_at(
                    profile@,
                    runs@,
                    j,
                    lv as int,
                ),
            forall|k1: int, k2: int|
                0 <= k1 < k2 < runs@.len() ==> (#[trigger] runs@[k1]).x_end + 1 < (
                #[trigger] runs@[k2]).x_start,
        decreases n - i,
    {
        let h = profile.sample_at(i).height;
        if h >= lv && !in_run {
            in_run = true;
            run_start = i;
        } else if h < lv && in_run {
            let r = ColliderRegion {
                x_start: profile.sample_at(run_start).x,
                x_end: profile.sample_at(i - 1).x,
                level: lv,
                kind: ColliderKind::Wall,
            };
            proof {
                assert(region_is_maximal_run(profile@, r));
            }
            let ghost old_runs = runs@;
            runs.push(r);
            proof {
                assert forall|j: int|
                    0 <= j < i as int && lv <= (profile@[j]).height implies #[trigger] has_region_at(
                    profile@,
                    runs@,
                    j,
                    lv as int,
                ) by {
                    if j < run_start {
                        lemma_has_region_push(profile@, old_runs, r, j, lv as int);
                    } else {
                        assert(runs@[old_runs.len() as int] == r);
                        assert(r.x_start <= profile@[0].x + j <= r.x_end);
                    }
                }
            }
            in_run = false;
        }
        i = i + 1;
    }
    if in_run {
        let r = ColliderRegion {
            x_start: profile.sample_at(run_start).x,
            x_end: profile.sample_at(n - 1).x,
            level: lv,
            kind: ColliderKind::Wall,
        };
        proof {
            assert(region_is_maximal_run(profile@, r));
        }
        let ghost old_runs = runs@;
        runs.push(r);
        proof {
            assert forall|j: int|
                0 <= j < n as int && lv <= (profile@[j]).height implies #[trigger] has_region_at(
                profile@,
                runs@,
                j,
                lv as int,
            ) by {
                if j < run_start {
                    lemma_has_region_push(profile@, old_runs, r, j, lv as int);
                } else {
                    assert(runs@[old_runs.len() as int] == r);
                    assert(r.x_start <= profile@[0].x + j <= r.x_end);
                }
            }
        }
    }
    runs
}

/// Decompose the profile into merged rectangular wall regions (a skyline
/// decomposition): for every height level from 0 up to the profile's
/// maximum, each maximal run of columns at least that tall becomes one
/// region. An empty profile is rejected rather than silently producing no
/// colliders.
pub fn build_colliders(profile: &HeightProfile) -> (r: Result<Vec<ColliderRegion>, LevelGenError>)
    requires
        profile.wf(),
    ensures
        r is Err <==> profile@.len() == 0,
        r is Err ==> r == Result::<Vec<ColliderRegion>, LevelGenError>::Err(
            LevelGenError::EmptyProfile,
        ),
        r matches Ok(regions) ==> colliders_sound(profile@, regions@) && colliders_cover(
            profile@,
            regions@,
        ) && colliders_ordered(regions@) && colliders_leveled(regions@),
{
    let n = profile.len();
    if n == 0 {
        return Err(LevelGenError::EmptyProfile);
    }
    let max_h = max_height(profile);
    let mut regions: Vec<ColliderRegion> = Vec::new();
    let mut lv: usize = 0;
    loop
        invariant_except_break
            profile.wf(),
            n == profile@.len(),
            n >= 1,
            lv <= max_h,
            forall|j: int| 0 <= j < n ==> (#[trigger] profile@[j]).height <= max_h,
            colliders_sound(profile@, regions@),
            colliders_ordered(regions@),
            colliders_leveled(regions@),
            forall|k: int| 0 <= k < regions@.len() ==> (#[trigger] regions@[k]).level < lv,
            forall|j: int, lvp: int|
                0 <= j < n && 0 <= lvp <= (profile@[j]).height && lvp < lv
                    ==> #[trigger] has_region_at(profile@, regions@, j, lvp),
        ensures
            colliders_sound(profile@, regions@),
            colliders_ordered(regions@),
            colliders_leveled(regions@),
            colliders_cover(profile@, regions@),
        decreases max_h - lv,
    {
        let runs = runs_at_level(profile, lv);
        let ghost pre = regions@;
        let ghost added = runs@;
        let mut t: usize = 0;
        let runs_len = runs.len();
        while t < runs_len
            invariant
                runs_len == added.len(),
                t <= runs_len,
                runs@ == added,
                regions@ == pre + added.subrange(0, t as int),
            decreases runs_len - t,
        {
            let region = runs[t];
            regions.push(region);
            proof {
                assert(added.subrange(0, t + 1) =~= added.subrange(0, t as int).push(
                    added[t as int],
                ));
                assert(regions@ =~= pre + added.subrange(0, t + 1));
            }
            t = t + 1;
        }
        proof {
            assert(added.subrange(0, added.len() as int) =~= added);
            assert(regions@ =~= pre + added);
            // Soundness and the per-level ensures of `runs_at_level` carry over
            // to the concatenation.
            assert forall|k: int|
                0 <= k < regions@.len() implies region_is_maximal_run(
                profile@,
                #[trigger] regions@[k],
            ) by {
                if k < pre.len() {
                    assert(regions@[k] == pre[k]);
                } else {
                    assert(regions@[k] == added[k - pre.len()]);
                }
            }
            assert forall|k1: int, k2: int|
                0 <= k1 < k2 < regions@.len() implies (#[trigger] regions@[k1]).level <= (
                #[trigger] regions@[k2]).level by {
                if k2 < pre.len() {
                    assert(regions@[k1] == pre[k1] && regions@[k2] == pre[k2]);
                } else if k1 >= pre.len() {
                    assert(regions@[k1] == added[k1 - pre.len()]);
                    assert(regions@[k2] == added[k2 - pre.len()]);
                } else {
                    assert(regions@[k1] == pre[k1]);
                    assert(regions@[k2] == added[k2 - pre.len()]);
                    assert(pre[k1].level < lv);
                    assert(added[k2 - pre.len()].level == lv);
                }
            }
            assert forall|k1: int, k2: int|
                0 <= k1 < k2 < regions@.len() && (#[trigger] regions@[k1]).level == (
                #[trigger] regions@[k2]).level implies regions@[k1].x_end + 1
                < regions@[k2].x_start by {
                if k2 < pre.len() {
                    assert(regions@[k1] == pre[k1] && regions@[k2] == pre[k2]);
                } else if k1 >= pre.len() {
                    assert(regions@[k1] == added[k1 - pre.len()]);
                    assert(regions@[k2] == added[k2 - pre.len()]);
                } else {
                    // across the two groups the levels differ
                    assert(regions@[k1] == pre[k1]);
                    assert(regions@[k2] == added[k2 - pre.len()]);
                    assert(pre[k1].level < lv);
                    assert(added[k2 - pre.len()].level == lv);
                }
            }
            assert forall|j: int, lvp: int|
                0 <= j < n && 0 <= lvp <= (profile@[j]).height && lvp <= lv
                    implies #[trigger] has_region_at(profile@, regions@, j, lvp) by {
                if lvp < lv {
                    assert(has_region_at(profile@, pre, j, lvp));
                    let k = choose|k: int|
                        0 <= k < pre.len() && (#[trigger] pre[k]).level == lvp && pre[k].x_start
                            <= profile@[0].x + j <= pre[k].x_end;
                    assert((pre + added)[k] == pre[k]);
                    assert(regions@[k] == pre[k]);
                } else {
                    assert(has_region_at(profile@, added, j, lvp));
                    let k = choose|k: int|
                        0 <= k < added.len() && (#[trigger] added[k]).level == lvp
                            && added[k].x_start <= profile@[0].x + j <= added[k].x_end;
                    assert((pre + added)[pre.len() + k] == added[k]);
                    assert(regions@[pre.len() + k] == added[k]);
                }
            }
        }
        if lv == max_h {
            proof {
                assert forall|j: int, lvp: int|
                    0 <= j < n && 0 <= lvp <= (profile@[j]).height
                        implies #[trigger] has_region_at(profile@, regions@, j, lvp) by {
                    assert(profile@[j].height <= max_h);
                }
            }
            break ;
        }
        lv = lv + 1;
    }
    Ok(regions)
}

} // verus!
