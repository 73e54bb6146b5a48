use rand::Rng;
use vstd::prelude::*;

verus! {

/// Largest bound up to which a draw from the game's generator is known to stay
/// strictly below the upper end of its range.
pub const EXACT_DRAW_LIMIT: i32 = 0x10_0000;

/// What every draw from the game's generator satisfies.
pub open spec fn in_draw_range(low: i32, high: i32, value: i32) -> bool {
    &&& low <= value <= high
    &&& (0 <= low < high <= EXACT_DRAW_LIMIT ==> value < high)
}

/// A draw from the game's global generator, `macroquad::rand::gen_range` on
/// `i32`. That function maps a 32-bit random word `k` to
/// `low + (high - low) * k / 2^32`, computed in double precision and cut off
/// towards zero. Trusted: the result lies between `low` and `high`, both
/// included, and strictly below `high` where the range is not negative, not
/// empty and within `EXACT_DRAW_LIMIT`, where the computation is exact.
#[verifier::external_body]
pub(crate) fn draw_between(low: i32, high: i32) -> (value: i32)
    requires
        low <= high,
    ensures
        in_draw_range(low, high, value),
{
    macroquad::rand::gen_range(low, high)
}

/// A draw from the calling thread's generator, `rand::Rng::gen_range` on a
/// half-open range of `i32`, which panics on an empty range. Trusted: the
/// result lies in `low..high`.
#[verifier::external_body]
pub(crate) fn sample_between(low: i32, high: i32) -> (value: i32)
    requires
        low < high,
    ensures
        low <= value < high,
{
    rand::thread_rng().gen_range(low..high)
}

} // verus!
