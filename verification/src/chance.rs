//! The game's source of chance.

use rand::Rng;
use vstd::prelude::*;

verus! {

/// Draws a number below `bound`.
///
/// Trusted: the body calls `rand::Rng::gen_range` on the generator of
/// `rand::thread_rng` with the half-open range `0..bound`. That call panics on
/// an empty range, which `bound > 0` rules out, and returns a value of the
/// range. Nothing else is claimed of the number drawn: not that it is evenly
/// spread, and not that two draws differ. The thread's generator takes its
/// seed from the system, at the first draw and again whenever it reseeds
/// itself (after a long run of draws, or after the process has forked); both
/// are taken to succeed. Where the system gives no seed, the draw that asks
/// for it panics.
#[verifier::external_body]
pub(crate) fn draw_below(bound: u32) -> (r: u32)
    requires
        bound > 0,
    ensures
        r < bound,
{
    rand::thread_rng().gen_range(0..bound)
}

} // verus!
