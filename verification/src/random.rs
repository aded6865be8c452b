//! The ball's randomized starting direction, drawn through rand.

use vstd::prelude::*;
use crate::geom::Vec2;
use crate::entities::VEL_UNIT;
use rand::Rng;

verus! {

/// rand's thread-local generator, opaque to the verifier.
#[verifier::external_type_specification]
#[verifier::external_body]
pub struct ExThreadRng(rand::rngs::ThreadRng);

/// Relies on rand::thread_rng: a handle to the thread-local random
/// generator.
#[verifier::external_body]
pub(crate) fn fresh_rng() -> rand::rngs::ThreadRng {
    rand::thread_rng()
}

/// Relies on rand::Rng::gen_range over a half-open i64 range: the result
/// lies in [lo, hi), uniformly; the call panics when the range is empty.
#[verifier::external_body]
pub(crate) fn gen_range_i64(rng: &mut rand::rngs::ThreadRng, lo: i64, hi: i64) -> (r: i64)
    requires
        lo < hi,
    ensures
        lo <= r < hi,
{
    rng.gen_range(lo..hi)
}

/// A fresh random starting direction for the ball: x in [-10, 10) world
/// units per second, y in [0, 10), the bounds the game has always used.
pub fn random_initial_direction() -> (d: Vec2)
    ensures
        -10 * VEL_UNIT <= d.x < 10 * VEL_UNIT,
        0 <= d.y < 10 * VEL_UNIT,
{
    let mut rng = fresh_rng();
    let bound = 10 * VEL_UNIT;
    let x = gen_range_i64(&mut rng, -bound, bound);
    let y = gen_range_i64(&mut rng, 0, bound);
    Vec2 { x, y }
}

} // verus!
