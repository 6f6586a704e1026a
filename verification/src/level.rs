//! The level layout builder: one call turns a root seed and a level
//! number into a complete, reproducible level description.

use vstd::prelude::*;

verus! {

use vstd::pervasive::unreached;
use crate::colliders::{
    ColliderKind,
    ColliderRegion,
    LevelGenError,
    build_colliders,
    colliders_cover,
    colliders_ordered,
    colliders_sound,
};
use crate::generator::{SeededGenerator, alnum_expansion, derive_for_level};
use crate::profile::{
    HeightProfile,
    generate_profile,
    lemma_walk_height_bound,
    profile_matches,
    stream_prefix,
};
use crate::spawns::{SpawnPoint, derive_spawns, spawns_upto, spec_level_difficulty};

/// Columns of empty buffer to the left of the player's start.
pub const BEGIN_WIDTH: usize = 10;

/// Columns after the start in which nothing hostile may spawn.
pub const SAFE_ZONE_WIDTH: usize = 5;

/// Columns from the start of the safe zone to the finish line.
pub const GAME_WIDTH: usize = 150;

/// Columns walked by the random height walk.
pub const PLAY_WIDTH: usize = GAME_WIDTH - SAFE_ZONE_WIDTH;

/// Height in tiles of the start and finish walls.
pub const WALL_HEIGHT: usize = 20;

/// A one-column vertical barrier from the ground up to `top`: the solid
/// wall behind the start, or the finish-line column.
#[derive(Clone, Copy, Debug, PartialEq, Eq, Structural)]
pub struct BoundaryColumn {
    pub x: i32,
    pub top: usize,
    pub kind: ColliderKind,
}

/// The start and finish markers of a level.
#[derive(Clone, Copy, Debug, PartialEq, Eq, Structural)]
pub struct LevelMarkers {
    pub start: BoundaryColumn,
    pub finish: BoundaryColumn,
}

/// Derive the start and finish markers from a profile: a solid wall at
/// the leftmost column, and a finish line one column past the rightmost,
/// rising from the terrain there. An empty profile is rejected.
pub fn level_markers(profile: &HeightProfile) -> (r: Result<LevelMarkers, LevelGenError>)
    requires
        profile@.len() > 0 ==> profile@[profile@.len() - 1].x < i32::MAX,
        profile@.len() > 0 ==> profile@[profile@.len() - 1].height + WALL_HEIGHT <= usize::MAX,
    ensures
        r is Err <==> profile@.len() == 0,
        r is Err ==> r == Result::<LevelMarkers, LevelGenError>::Err(LevelGenError::EmptyProfile),
        r matches Ok(m) ==> {
            &&& m.start == (BoundaryColumn {
                x: profile@[0].x,
                top: WALL_HEIGHT,
                kind: ColliderKind::Wall,
            })
            &&& m.finish == (BoundaryColumn {
                x: (profile@[profile@.len() - 1].x + 1) as i32,
                top: (profile@[profile@.len() - 1].height + WALL_HEIGHT) as usize,
                kind: ColliderKind::FinishLine,
            })
        },
{
    let n = profile.len();
    if n == 0 {
        return Err(LevelGenError::EmptyProfile);
    }
    let first = profile.sample_at(0);
    let last = profile.sample_at(n - 1);
    Ok(
        LevelMarkers {
            start: BoundaryColumn { x: first.x, top: WALL_HEIGHT, kind: ColliderKind::Wall },
            finish: BoundaryColumn {
                x: last.x + 1,
                top: last.height + WALL_HEIGHT,
                kind: ColliderKind::FinishLine,
            },
        },
    )
}

/// A complete level description, ready to hand to the entity-spawning
/// collaborator: the terrain profile, its merged collision regions, the
/// spawn instructions and the start/finish markers.
pub struct LevelLayout {
    pub profile: HeightProfile,
    pub colliders: Vec<ColliderRegion>,
    pub spawns: Vec<SpawnPoint>,
    pub markers: LevelMarkers,
}

impl LevelLayout {
    /// What build_level promises: every piece of the layout is the pure
    /// function of the root seed and level number that the component
    /// contracts describe.
    pub open spec fn matches(&self, root_seed: Seq<char>, level: int) -> bool {
        let seed = alnum_expansion(root_seed, 5 * level);
        &&& self.profile.wf()
        &&& profile_matches(
            self.profile@,
            stream_prefix(seed, 0, PLAY_WIDTH as int),
            BEGIN_WIDTH as int,
            SAFE_ZONE_WIDTH as int,
        )
        &&& colliders_sound(self.profile@, self.colliders@)
        &&& colliders_cover(self.profile@, self.colliders@)
        &&& colliders_ordered(self.colliders@)
        &&& self.spawns@ == spawns_upto(
            self.profile@,
            seed,
            PLAY_WIDTH as int,
            level,
            spec_level_difficulty(level),
            SAFE_ZONE_WIDTH as int,
            self.profile@.len() as int,
        )
        &&& (forall|t: int|
            0 <= t < self.spawns@.len() ==> (#[trigger] self.spawns@[t]).x > SAFE_ZONE_WIDTH)
        &&& self.markers.start == (BoundaryColumn {
            x: self.profile@[0].x,
            top: WALL_HEIGHT,
            kind: ColliderKind::Wall,
        })
        &&& self.markers.finish == (BoundaryColumn {
            x: (self.profile@[self.profile@.len() - 1].x + 1) as i32,
            top: (self.profile@[self.profile@.len() - 1].height + WALL_HEIGHT) as usize,
            kind: ColliderKind::FinishLine,
        })
    }
}

/// Build the complete layout for one level: derive the level generator
/// from the root seed, walk the height profile, merge the colliders,
/// roll the spawn points and place the markers. The profile is fully
/// materialized before anything downstream reads it.
pub fn build_level(root_seed: &Vec<char>, level: usize) -> (r: LevelLayout)
    requires
        level >= 1,
        5 * level <= usize::MAX,
    ensures
        r.matches(root_seed@, level as int),
{
    let g = derive_for_level(root_seed, level);
    let (g, profile) = generate_profile(g, BEGIN_WIDTH, SAFE_ZONE_WIDTH, PLAY_WIDTH);
    let colliders = match build_colliders(&profile) {
        Ok(c) => c,
        Err(_) => unreached(),
    };
    proof {
        let last = profile@.len() - 1;
        lemma_walk_height_bound(
            stream_prefix(alnum_expansion(root_seed@, 5 * level), 0, PLAY_WIDTH as int),
            last - BEGIN_WIDTH - SAFE_ZONE_WIDTH,
        );
    }
    let markers = match level_markers(&profile) {
        Ok(m) => m,
        Err(_) => unreached(),
    };
    let (_, spawns) = derive_spawns(&profile, g, level, SAFE_ZONE_WIDTH);
    LevelLayout { profile, colliders, spawns, markers }
}

/// Determinism: two layouts that both match the same root seed and level
/// have identical profiles, spawn lists and markers — deriving a level
/// twice replays the same world.
pub proof fn lemma_build_level_deterministic(
    l1: LevelLayout,
    l2: LevelLayout,
    root_seed: Seq<char>,
    level: int,
)
    requires
        l1.matches(root_seed, level),
        l2.matches(root_seed, level),
    ensures
        l1.profile@ == l2.profile@,
        l1.spawns@ == l2.spawns@,
        l1.markers == l2.markers,
{
    crate::profile::lemma_profile_deterministic(
        l1.profile@,
        l2.profile@,
        stream_prefix(alnum_expansion(root_seed, 5 * level), 0, PLAY_WIDTH as int),
        BEGIN_WIDTH as int,
        SAFE_ZONE_WIDTH as int,
    );
}

} // verus!
