//! The game session: the editable root seed and the level counter, passed
//! explicitly through the menu/level-start boundary instead of living in
//! ambient globals.

use vstd::prelude::*;

verus! {

use crate::generator::{
    SeededGenerator,
    alnum_expansion,
    char_is_alnum,
    is_alnum_char,
    derive_for_level,
    random_seed,
};
use crate::spawns::{level_difficulty, spec_level_difficulty};

/// The longest root seed a player may type.
pub const SEED_MAX_LEN: usize = 15;

/// The length of a freshly drawn random root seed.
pub const RANDOM_SEED_LEN: usize = 8;

/// The mutable state a play session carries between menu and levels: the
/// root seed string and the current level number.
pub struct GameSession {
    seed: Vec<char>,
    level: usize,
}

impl GameSession {
    /// The current root seed.
    pub closed spec fn seed_view(&self) -> Seq<char> {
        self.seed@
    }

    /// The current level number.
    pub closed spec fn level_view(&self) -> int {
        self.level as int
    }

    /// Well-formed: the seed is a bounded alphanumeric string and the
    /// level counter starts at one.
    pub open spec fn wf(&self) -> bool {
        &&& self.seed_view().len() <= SEED_MAX_LEN
        &&& (forall|i: int|
            0 <= i < self.seed_view().len() ==> is_alnum_char(#[trigger] self.seed_view()[i]))
        &&& self.level_view() >= 1
    }

    /// A fresh session: empty seed, level one.
    pub fn new() -> (r: GameSession)
        ensures
            r.wf(),
            r.seed_view() == Seq::<char>::empty(),
            r.level_view() == 1,
    {
        GameSession { seed: Vec::new(), level: 1 }
    }

    /// Append one character to the seed. Non-alphanumeric characters are
    /// ignored and the length is capped, so violations never reach the
    /// generator.
    pub fn add_char(&mut self, c: char)
        requires
            old(self).wf(),
        ensures
            final(self).wf(),
            final(self).level_view() == old(self).level_view(),
            is_alnum_char(c) && old(self).seed_view().len() < SEED_MAX_LEN
                ==> final(self).seed_view() == old(self).seed_view().push(c),
            !(is_alnum_char(c) && old(self).seed_view().len() < SEED_MAX_LEN)
                ==> final(self).seed_view() == old(self).seed_view(),
    {
        if char_is_alnum(c) && self.seed.len() < SEED_MAX_LEN {
            self.seed.push(c);
        }
    }

    /// Remove the last character of the seed, if any.
    pub fn delete_last(&mut self)
        requires
            old(self).wf(),
        ensures
            final(self).wf(),
            final(self).level_view() == old(self).level_view(),
            old(self).seed_view().len() > 0
                ==> final(self).seed_view() == old(self).seed_view().drop_last(),
            old(self).seed_view().len() == 0 ==> final(self).seed_view() == old(self).seed_view(),
    {
        if self.seed.len() > 0 {
            self.seed.pop();
        }
    }

    /// Replace the seed by a fresh random alphanumeric one. The new value
    /// comes from an entropy source, so only its shape is promised.
    pub fn new_random_seed(&mut self)
        requires
            old(self).wf(),
        ensures
            final(self).wf(),
            final(self).level_view() == old(self).level_view(),
            final(self).seed_view().len() == RANDOM_SEED_LEN,
            forall|i: int|
                0 <= i < final(self).seed_view().len()
                    ==> is_alnum_char(#[trigger] final(self).seed_view()[i]),
    {
        self.seed = random_seed(RANDOM_SEED_LEN);
    }

    /// A copy of the current seed.
    pub fn seed_chars(&self) -> (r: Vec<char>)
        ensures
            r@ == self.seed_view(),
    {
        let r = self.seed.clone();
        proof {
            assert(r@ =~= self.seed@);
        }
        r
    }

    /// The current level number.
    pub fn level(&self) -> (r: usize)
        ensures
            r == self.level_view(),
    {
        self.level
    }

    /// The difficulty derived from the current level.
    pub fn difficulty(&self) -> (r: usize)
        requires
            self.wf(),
        ensures
            r == spec_level_difficulty(self.level_view()),
            r >= 1,
    {
        level_difficulty(self.level)
    }

    /// Advance to the next level.
    pub fn increase_level(&mut self)
        requires
            old(self).wf(),
            old(self).level_view() < usize::MAX,
        ensures
            final(self).wf(),
            final(self).seed_view() == old(self).seed_view(),
            final(self).level_view() == old(self).level_view() + 1,
    {
        self.level = self.level + 1;
    }

    /// Back to the first level, keeping the seed.
    pub fn reset_level(&mut self)
        requires
            old(self).wf(),
        ensures
            final(self).wf(),
            final(self).seed_view() == old(self).seed_view(),
            final(self).level_view() == 1,
    {
        self.level = 1;
    }

    /// Start a new game: an empty seed is replaced by a fresh random one
    /// (so even a missing seed still yields a playable level), the level
    /// counter returns to one, and the level-one generator is derived.
    pub fn start_new_game(&mut self) -> (g: SeededGenerator)
        requires
            old(self).wf(),
        ensures
            final(self).wf(),
            final(self).level_view() == 1,
            old(self).seed_view().len() > 0 ==> final(self).seed_view() == old(self).seed_view(),
            final(self).seed_view().len() > 0,
            g.seed_view() == alnum_expansion(final(self).seed_view(), 5),
            g.draws_made() == 0,
    {
        if self.seed.len() == 0 {
            self.new_random_seed();
        }
        self.level = 1;
        derive_for_level(&self.seed, 1)
    }

    /// Derive the generator for the current level from the root seed:
    /// restarting the same level replays the same layout.
    pub fn start_level(&self) -> (g: SeededGenerator)
        requires
            self.wf(),
            5 * self.level_view() <= usize::MAX,
        ensures
            g.seed_view() == alnum_expansion(self.seed_view(), 5 * self.level_view()),
            g.draws_made() == 0,
    {
        derive_for_level(&self.seed, self.level)
    }
}

} // verus!
