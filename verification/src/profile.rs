//! The terrain height profile: a biased random walk over the play region,
//! flat across the begin buffer and safe zone, clamped at ground level.

use vstd::prelude::*;

verus! {

use crate::generator::{SeededGenerator, stream_draw};

/// One terrain column: its x coordinate and its ground height in tiles.
#[derive(Clone, Copy, Debug, PartialEq, Eq, Structural)]
pub struct Sample {
    pub x: i32,
    pub height: usize,
}

/// An ordered sequence of terrain columns with consecutive x coordinates.
pub struct HeightProfile {
    pub samples: Vec<Sample>,
}

impl View for HeightProfile {
    type V = Seq<Sample>;

    open spec fn view(&self) -> Seq<Sample> {
        self.samples@
    }
}

impl HeightProfile {
    /// Well-formed: x coordinates increase by exactly 1 from the first.
    pub open spec fn wf(&self) -> bool {
        forall|i: int| 0 <= i < self@.len() ==> (#[trigger] self@[i]).x == self@[0].x + i
    }

    /// The number of columns.
    pub fn len(&self) -> (r: usize)
        ensures
            r == self@.len(),
    {
        self.samples.len()
    }

    /// The column at the given position.
    pub fn sample_at(&self, i: usize) -> (r: Sample)
        requires
            i < self@.len(),
        ensures
            r == self@[i as int],
    {
        self.samples[i]
    }
}

/// The height delta chosen by one uniform draw in `0..100`: biased toward
/// flat terrain (71%), with single-step drops (10%), single-step rises
/// (10%) and rarer double-step rises (9%).
pub open spec fn delta_for_draw(d: u32) -> int {
    if d <= 70 {
        0
    } else if d <= 80 {
        -1
    } else if d <= 90 {
        1
    } else {
        2
    }
}

/// The next height of the walk: the delta applied to the current height,
/// clamped at a minimum of 0 so the terrain never goes below ground.
pub open spec fn next_height_spec(h: nat, d: u32) -> nat {
    if h + delta_for_draw(d) >= 0 {
        (h + delta_for_draw(d)) as nat
    } else {
        0
    }
}

/// The height of the walk after `k` steps over the given draws, starting
/// at height 0. For `k <= 0` this is the starting height.
pub open spec fn walk_height(draws: Seq<u32>, k: int) -> nat
    decreases k,
{
    if k <= 0 {
        0
    } else {
        next_height_spec(walk_height(draws, k - 1), draws[k - 1])
    }
}

/// The expected shape of a profile built from `draws` behind a begin
/// buffer and safe zone: columns are consecutive starting at `-begin`,
/// the buffer and safe zone are flat at height 0, and the play region
/// follows the walk.
pub open spec fn profile_matches(samples: Seq<Sample>, draws: Seq<u32>, begin: int, safe: int) -> bool {
    &&& samples.len() == begin + safe + draws.len()
    &&& forall|i: int| 0 <= i < samples.len() ==> (#[trigger] samples[i]).x == i - begin
    &&& forall|i: int|
        0 <= i < samples.len() ==> (#[trigger] samples[i]).height == walk_height(
            draws,
            i - begin - safe,
        )
}

/// The first `n` draws of the stream for `seed`, starting at draw `i0`.
pub open spec fn stream_prefix(seed: Seq<char>, i0: int, n: int) -> Seq<u32> {
    Seq::new(n as nat, |j: int| stream_draw(seed, i0 + j))
}

/// Non-negativity: every height the walk can reach is at least 0.
pub proof fn lemma_height_nonnegative(draws: Seq<u32>, k: int)
    ensures
        walk_height(draws, k) >= 0,
{
}

/// The walk rises by at most 2 per step, so `k` steps stay under `2 * k`.
pub proof fn lemma_walk_height_bound(draws: Seq<u32>, k: int)
    ensures
        k >= 0 ==> walk_height(draws, k) <= 2 * k,
    decreases k,
{
    if k > 0 {
        lemma_walk_height_bound(draws, k - 1);
    }
}

/// Bounded delta: each draw moves the height by one of -1, 0, +1 or +2
/// before clamping, so consecutive walk heights differ by at most that.
pub proof fn lemma_bounded_delta(draws: Seq<u32>, k: int)
    requires
        k >= 0,
    ensures
        delta_for_draw(draws[k]) == -1 || delta_for_draw(draws[k]) == 0 || delta_for_draw(
            draws[k],
        ) == 1 || delta_for_draw(draws[k]) == 2,
        walk_height(draws, k + 1) <= walk_height(draws, k) + 2,
        walk_height(draws, k) <= walk_height(draws, k + 1) + 1,
{
}

/// Determinism: two profiles that both match the same draws and widths
/// are identical, column for column.
pub proof fn lemma_profile_deterministic(
    s1: Seq<Sample>,
    s2: Seq<Sample>,
    draws: Seq<u32>,
    begin: int,
    safe: int,
)
    requires
        profile_matches(s1, draws, begin, safe),
        profile_matches(s2, draws, begin, safe),
    ensures
        s1 == s2,
{
    assert forall|i: int| 0 <= i < s1.len() implies s1[i] == s2[i] by {
        assert(s1[i].x == i - begin);
        assert(s2[i].x == i - begin);
        assert(s1[i].height == walk_height(draws, i - begin - safe));
        assert(s2[i].height == walk_height(draws, i - begin - safe));
    }
    assert(s1 =~= s2);
}

/// One step of the walk, executable: apply the delta for `draw` to
/// `current`, clamping at 0.
pub fn next_height(current: usize, draw: u32) -> (r: usize)
    requires
        current + 2 <= usize::MAX,
    ensures
        r == next_height_spec(current as nat, draw),
{
    if draw <= 70 {
        current
    } else if draw <= 80 {
        if current > 0 {
            current - 1
        } else {
            0
        }
    } else if draw <= 90 {
        current + 1
    } else {
        current + 2
    }
}

/// Build the height profile from an explicit draw sequence: `begin_width`
/// buffer columns and `safe_zone_width` safe columns at height 0, then one
/// column per draw following the walk. The first play column still sits at
/// height 0; each draw moves the height for the column after it.
pub fn build_profile(draws: &Vec<u32>, begin_width: usize, safe_zone_width: usize) -> (p:
    HeightProfile)
    requires
        begin_width + safe_zone_width + draws@.len() <= i32::MAX,
    ensures
        profile_matches(p@, draws@, begin_width as int, safe_zone_width as int),
        p.wf(),
{
    let flat = begin_width + safe_zone_width;
    let total = flat + draws.len();
    let mut samples: Vec<Sample> = Vec::new();
    let mut height: usize = 0;
    let mut i: usize = 0;
    while i < total
        invariant
            i <= total,
            flat == begin_width + safe_zone_width,
            total == flat + draws@.len(),
            total <= i32::MAX,
            samples@.len() == i,
            forall|j: int|
                0 <= j < i ==> (#[trigger] samples@[j]).x == j - begin_width,
            forall|j: int|
                0 <= j < i ==> (#[trigger] samples@[j]).height == walk_height(
                    draws@,
                    j - begin_width - safe_zone_width,
                ),
            height == walk_height(draws@, i - begin_width - safe_zone_width),
        decreases total - i,
    {
        let x = (i as i32) - (begin_width as i32);
        samples.push(Sample { x, height });
        if i >= flat {
            proof {
                lemma_walk_height_bound(draws@, i - flat);
            }
            height = next_height(height, draws[i - flat]);
        }
        i = i + 1;
    }
    HeightProfile { samples }
}

/// Generate the height profile for one level by drawing `play_width`
/// uniform samples from the generator. The resulting profile is a pure
/// function of the generator's seed and position, which is what makes
/// level layouts reproducible.
pub fn generate_profile(
    gen: SeededGenerator,
    begin_width: usize,
    safe_zone_width: usize,
    play_width: usize,
) -> (r: (SeededGenerator, HeightProfile))
    requires
        begin_width + safe_zone_width + play_width <= i32::MAX,
        gen.draws_made() + play_width <= usize::MAX,
    ensures
        r.0.seed_view() == gen.seed_view(),
        r.0.draws_made() == gen.draws_made() + play_width,
        profile_matches(
            r.1@,
            stream_prefix(gen.seed_view(), gen.draws_made(), play_width as int),
            begin_width as int,
            safe_zone_width as int,
        ),
        r.1.wf(),
{
    let mut g = gen;
    let mut draws: Vec<u32> = Vec::new();
    let mut i: usize = 0;
    while i < play_width
        invariant
            i <= play_width,
            g.seed_view() == gen.seed_view(),
            g.draws_made() == gen.draws_made() + i,
            gen.draws_made() + play_width <= usize::MAX,
            draws@.len() == i,
            forall|j: int|
                0 <= j < i ==> #[trigger] draws@[j] == stream_draw(
                    gen.seed_view(),
                    gen.draws_made() + j,
                ),
        decreases play_width - i,
    {
        let d = g.next_uniform_0_99();
        draws.push(d);
        i = i + 1;
    }
    proof {
        assert(draws@ =~= stream_prefix(gen.seed_view(), gen.draws_made(), play_width as int));
    }
    let p = build_profile(&draws, begin_width, safe_zone_width);
    (g, p)
}

} // verus!
