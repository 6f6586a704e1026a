//! The seeded generator: a PCG-64 stream keyed by a seed string, with a
//! deterministic per-level derivation.

use vstd::prelude::*;

verus! {

use rand::Rng;
use rand_seeder::Seeder;

/// The PCG-64 generator that all level randomness is drawn from.
#[verifier::external_type_specification]
#[verifier::external_body]
pub struct ExPcg64(rand_pcg::Pcg64);

/// The value of the `i`-th uniform draw in `0..100` made by a PCG-64
/// generator seeded from `seed`. The generator is a pure algorithm keyed
/// only by its seed, so this is a function of the seed and the draw index.
pub uninterp spec fn stream_draw(seed: Seq<char>, i: int) -> u32;

/// The `n` alphanumeric characters sampled from a fresh PCG-64 generator
/// seeded from `seed`; a function of the seed and the count alone.
pub uninterp spec fn alnum_expansion(seed: Seq<char>, n: int) -> Seq<char>;

/// An ASCII letter or digit: the character set of generated seeds.
pub open spec fn is_alnum_char(c: char) -> bool {
    ('a' as u32 <= c as u32 && c as u32 <= 'z' as u32)
        || ('A' as u32 <= c as u32 && c as u32 <= 'Z' as u32)
        || ('0' as u32 <= c as u32 && c as u32 <= '9' as u32)
}

/// Executable check for [`is_alnum_char`].
pub fn char_is_alnum(c: char) -> (r: bool)
    ensures
        r == is_alnum_char(c),
{
    let u = c as u32;
    ('a' as u32 <= u && u <= 'z' as u32) || ('A' as u32 <= u && u <= 'Z' as u32) || ('0' as u32
        <= u && u <= '9' as u32)
}

/// A deterministic pseudo-random stream keyed by a seed string.
///
/// The stream state is pinned by two pieces of data that the contracts
/// speak of: the seed the generator was built from, and how many draws
/// have been made. Two generators that agree on both yield the same draws
/// forever.
pub struct SeededGenerator {
    rng: rand_pcg::Pcg64,
    seed: Vec<char>,
    drawn: usize,
}

impl SeededGenerator {
    /// The seed the stream was built from.
    pub closed spec fn seed_view(&self) -> Seq<char> {
        self.seed@
    }

    /// How many uniform draws have been made so far.
    pub closed spec fn draws_made(&self) -> int {
        self.drawn as int
    }

    /// Relies on rand_seeder::Seeder (a SipHash of the seed characters)
    /// and rand_pcg::Pcg64: the generator built here is a deterministic
    /// function of `seed`, with no draws made yet.
    #[verifier::external_body]
    pub fn from_seed(seed: &Vec<char>) -> (r: SeededGenerator)
        ensures
            r.seed_view() == seed@,
            r.draws_made() == 0,
    {
        let s: String = seed.iter().collect();
        SeededGenerator { rng: Seeder::from(s.as_str()).make_rng(), seed: seed.clone(), drawn: 0 }
    }

    /// Relies on rand::Rng::gen_range over rand_pcg::Pcg64: the draw lies
    /// in `0..100` and, the generator being a pure algorithm, is a function
    /// of the seed and of how many draws preceded it.
    #[verifier::external_body]
    pub fn next_uniform_0_99(&mut self) -> (r: u32)
        requires
            old(self).draws_made() < usize::MAX,
        ensures
            r == stream_draw(old(self).seed_view(), old(self).draws_made()),
            r < 100,
            final(self).seed_view() == old(self).seed_view(),
            final(self).draws_made() == old(self).draws_made() + 1,
    {
        self.drawn += 1;
        self.rng.gen_range(0..100u32)
    }

    /// A copy of the seed this generator was built from.
    pub fn seed_chars(&self) -> (r: Vec<char>)
        ensures
            r@ == self.seed_view(),
    {
        let r = self.seed.clone();
        proof {
            assert(r@ =~= self.seed@);
        }
        r
    }
}

/// Relies on rand_seeder::Seeder, rand_pcg::Pcg64 and rand's Alphanumeric
/// distribution: sampling is deterministic in the seed and yields exactly
/// `n` characters, each drawn from a-z, A-Z, 0-9.
#[verifier::external_body]
fn sample_alphanumeric(seed: &Vec<char>, n: usize) -> (r: Vec<char>)
    ensures
        r@ == alnum_expansion(seed@, n as int),
        r@.len() == n as int,
        forall|i: int| 0 <= i < r@.len() ==> is_alnum_char(r@[i]),
{
    let s: String = seed.iter().collect();
    let rng: rand_pcg::Pcg64 = Seeder::from(s.as_str()).make_rng();
    rng.sample_iter(&rand::distributions::Alphanumeric).take(n).map(char::from).collect()
}

/// Relies on rand::thread_rng with the Alphanumeric distribution: the
/// outcome is non-deterministic, so nothing is promised beyond the length
/// and the character set, which hold of every outcome.
#[verifier::external_body]
fn entropy_alphanumeric(n: usize) -> (r: Vec<char>)
    ensures
        r@.len() == n as int,
        forall|i: int| 0 <= i < r@.len() ==> is_alnum_char(r@[i]),
{
    rand::thread_rng().sample_iter(&rand::distributions::Alphanumeric).take(n).map(
        char::from,
    ).collect()
}

/// A fresh alphanumeric seed of the given length from a non-deterministic
/// entropy source; used only to originate a new root seed, never for
/// in-level generation.
pub fn random_seed(length: usize) -> (r: Vec<char>)
    ensures
        r@.len() == length as int,
        forall|i: int| 0 <= i < r@.len() ==> is_alnum_char(r@[i]),
{
    entropy_alphanumeric(length)
}

/// Deterministically expands the root seed into a level-specific stream:
/// draw `5 * level` alphanumeric characters from a temporary stream seeded
/// by the root seed, then build the final generator from those characters.
/// Level N's layout is thereby stable across replays yet differs from
/// level N±1 and from direct use of the root seed.
pub fn derive_for_level(root_seed: &Vec<char>, level: usize) -> (r: SeededGenerator)
    requires
        5 * level <= usize::MAX,
    ensures
        r.seed_view() == alnum_expansion(root_seed@, 5 * level),
        r.draws_made() == 0,
{
    let n: usize = 5 * level;
    let level_seed = sample_alphanumeric(root_seed, n);
    SeededGenerator::from_seed(&level_seed)
}

} // verus!
