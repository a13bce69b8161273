//! The kernel's single pseudo-random stream.
//!
//! Every stochastic draw the simulation makes comes from one `rand::rngs::StdRng`
//! owned by the game state. The stream is modelled by two ghost values: the
//! seed it was built from (if one was given) and the list of bounds of the
//! draws made so far. For a seeded stream the value of each draw is a pure
//! function of the seed and that list, which is what makes a seeded game
//! reproducible.
//!
//! All fields of [`RngStream`] are private and only the three functions of
//! this module touch them, so a stream whose ghost seed is `Some(seed)` is
//! always the one `seed_from_u64(seed)` built, advanced by exactly the draws
//! whose bounds its ghost history lists.

use vstd::prelude::*;

verus! {

#[verifier::external_type_specification]
#[verifier::external_body]
pub struct ExStdRng(rand::rngs::StdRng);

/// The value `rand` draws from a stream seeded with `seed`, after earlier
/// draws whose inclusive bounds are listed pairwise in `history`, when asked
/// for a value between `lo` and `hi` inclusive.
pub uninterp spec fn seeded_draw(seed: u64, history: Seq<u32>, lo: u32, hi: u32) -> u32;

/// A `StdRng` together with a ghost record of how it was built and what was
/// drawn from it.
pub struct RngStream {
    inner: rand::rngs::StdRng,
    seed: Ghost<Option<u64>>,
    history: Ghost<Seq<u32>>,
}

/// The seed the stream was built from, or `None` for a stream built from
/// entropy.
pub closed spec fn seed_of(s: RngStream) -> Option<u64> {
    s.seed@
}

/// The inclusive bounds of every draw made from the stream so far, two
/// entries per draw.
pub closed spec fn history_of(s: RngStream) -> Seq<u32> {
    s.history@
}

/// Relies on `rand_core::SeedableRng::seed_from_u64`, whose seed expansion
/// the crate documents as fixed: for a given seed it always builds the same
/// stream.
#[verifier::external_body]
fn raw_stream_from_seed(seed: u64) -> rand::rngs::StdRng {
    <rand::rngs::StdRng as rand::SeedableRng>::seed_from_u64(seed)
}

/// Relies on `rand_core::SeedableRng::from_entropy` for a fresh,
/// non-reproducible stream; nothing is promised of the draws it will yield
/// beyond their bounds.
#[verifier::external_body]
fn raw_stream_from_entropy() -> rand::rngs::StdRng {
    <rand::rngs::StdRng as rand::SeedableRng>::from_entropy()
}

pub fn stream_from_seed(seed: u64) -> (s: RngStream)
    ensures
        seed_of(s) == Some(seed),
        history_of(s) == Seq::<u32>::empty(),
{
    RngStream {
        inner: raw_stream_from_seed(seed),
        seed: Ghost(Some(seed)),
        history: Ghost(Seq::empty()),
    }
}

pub fn stream_from_entropy() -> (s: RngStream)
    ensures
        seed_of(s) is None,
        history_of(s) == Seq::<u32>::empty(),
{
    RngStream {
        inner: raw_stream_from_entropy(),
        seed: Ghost(None),
        history: Ghost(Seq::empty()),
    }
}

/// Relies on `rand::Rng::gen_range` over an inclusive `u32` range: the result
/// lies within the bounds, and for a fixed version of `rand` it is a pure
/// function of the stream's state, which for a seeded stream is determined by
/// the seed and the bounds of the draws made before.
#[verifier::external_body]
pub fn draw(s: &mut RngStream, lo: u32, hi: u32) -> (r: u32)
    requires
        lo <= hi,
    ensures
        lo <= r <= hi,
        seed_of(*final(s)) == seed_of(*old(s)),
        history_of(*final(s)) == history_of(*old(s)) + seq![lo, hi],
        seed_of(*old(s)) matches Some(seed) ==> r == seeded_draw(
            seed,
            history_of(*old(s)),
            lo,
            hi,
        ),
{
    rand::Rng::gen_range(&mut s.inner, lo..=hi)
}

} // verus!
