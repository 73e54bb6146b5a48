use vstd::prelude::*;

verus! {

/// A point or a displacement on the plane, in thousandths of a screen unit.
#[derive(Clone, Copy, Debug, PartialEq, Eq, Structural)]
pub struct Vec2 {
    pub x: i32,
    pub y: i32,
}

/// Number of fixed-point steps in one screen unit, one second or a factor of one.
pub const UNIT: i32 = 1000;

/// Score that separates two consecutive extra lives.
pub const EXTRA_LIFE_STEP: u32 = 3000;

/// The quotient of `a` by a positive `b`, rounded towards zero.
pub open spec fn trunc_div(a: int, b: int) -> int {
    if a >= 0 {
        a / b
    } else {
        -((-a) / b)
    }
}

/// Divides by a positive number, rounding towards zero.
pub fn div_toward_zero(a: i64, b: i64) -> (q: i64)
    requires
        b > 0,
        a > i64::MIN,
    ensures
        q == trunc_div(a as int, b as int),
{
    if a >= 0 {
        a / b
    } else {
        let q = (-a) / b;
        assert(0 <= q <= -a) by (nonlinear_arith)
            requires
                q == (-a) / (b as int),
                b > 0,
                -a >= 0,
        ;
        -q
    }
}

/// `value` times `factor` thousandths, rounded towards zero.
pub open spec fn scale_spec(value: int, factor: int) -> int {
    trunc_div(value * factor, UNIT as int)
}

/// `value` times `factor` thousandths, rounded towards zero.
pub fn scale(value: i32, factor: i32) -> (scaled: i32)
    requires
        i32::MIN <= scale_spec(value as int, factor as int) <= i32::MAX,
    ensures
        scaled == scale_spec(value as int, factor as int),
{
    assert(-0x4000_0000_0000_0000 <= (value as int) * (factor as int) <= 0x4000_0000_0000_0000)
        by (nonlinear_arith)
        requires
            -0x8000_0000 <= value <= 0x8000_0000,
            -0x8000_0000 <= factor <= 0x8000_0000,
    ;
    div_toward_zero((value as i64) * (factor as i64), UNIT as i64) as i32
}

/// Scaling by a factor of at most one in magnitude does not take a value
/// further from zero.
pub proof fn lemma_scale_within(value: int, factor: int, bound: int)
    requires
        -bound <= value <= bound,
        -1000 <= factor <= 1000,
    ensures
        -bound <= scale_spec(value, factor) <= bound,
        -bound <= scale_spec(factor, value) <= bound,
{
    let p = value * factor;
    assert(-(1000 * bound) <= p <= 1000 * bound) by (nonlinear_arith)
        requires
            p == value * factor,
            -bound <= value <= bound,
            -1000 <= factor <= 1000,
    ;
    assert(factor * value == p) by (nonlinear_arith)
        requires
            p == value * factor,
    ;
}

/// Scaling by a factor that is not negative keeps the order of two values.
pub proof fn lemma_scale_keeps_order(low: int, high: int, factor: int)
    requires
        low <= high,
        factor >= 0,
    ensures
        scale_spec(low, factor) <= scale_spec(high, factor),
{
    assert(low * factor <= high * factor) by (nonlinear_arith)
        requires
            low <= high,
            factor >= 0,
    ;
}

/// One coordinate brought back onto `[0, bound]`: above the bound it restarts at
/// zero, below zero it restarts at the bound, in that order.
pub open spec fn wrap_coord(v: int, bound: int) -> int {
    let w = if v > bound { 0 } else { v };
    if w < 0 { bound } else { w }
}

/// `wrap_coord` on both axes.
pub open spec fn wrap_spec(pos: Vec2, width: i32, height: i32) -> Vec2 {
    Vec2 {
        x: wrap_coord(pos.x as int, width as int) as i32,
        y: wrap_coord(pos.y as int, height as int) as i32,
    }
}

/// Whether `pos` lies on the screen, its edges included.
pub open spec fn on_screen(pos: Vec2, width: i32, height: i32) -> bool {
    0 <= pos.x <= width && 0 <= pos.y <= height
}

/// Square of the distance between two points.
pub open spec fn dist_sq(a: Vec2, b: Vec2) -> int {
    (a.x - b.x) * (a.x - b.x) + (a.y - b.y) * (a.y - b.y)
}

/// Two circles overlap when their centres are strictly closer than the sum of
/// their radii; circles that only touch do not overlap.
pub open spec fn circles_overlap(pos1: Vec2, r1: i32, pos2: Vec2, r2: i32) -> bool {
    r1 + r2 > 0 && dist_sq(pos1, pos2) < (r1 + r2) * (r1 + r2)
}

/// Wraps a position around the rectangle `[0, width] x [0, height]`.
pub fn wrap_pos(pos: Vec2, width: i32, height: i32) -> (wrapped: Vec2)
    ensures
        wrapped == wrap_spec(pos, width, height),
        on_screen(pos, width, height) ==> wrapped == pos,
        width >= 0 && height >= 0 ==> on_screen(wrapped, width, height),
{
    let mut new_pos = pos;
    if new_pos.x > width {
        new_pos.x = 0;
    }
    if new_pos.x < 0 {
        new_pos.x = width;
    }
    if new_pos.y > height {
        new_pos.y = 0;
    }
    if new_pos.y < 0 {
        new_pos.y = height;
    }
    new_pos
}

/// Computes the square of the distance between two points.
pub fn distance_squared(a: Vec2, b: Vec2) -> (d: i128)
    ensures
        d == dist_sq(a, b),
        0 <= d <= 0x2_0000_0000_0000_0000,
{
    let dx: i128 = a.x as i128 - b.x as i128;
    let dy: i128 = a.y as i128 - b.y as i128;
    assert(0 <= dx * dx <= 0x1_0000_0000 * 0x1_0000_0000) by (nonlinear_arith)
        requires
            -0x1_0000_0000 < dx < 0x1_0000_0000,
    ;
    assert(0 <= dy * dy <= 0x1_0000_0000 * 0x1_0000_0000) by (nonlinear_arith)
        requires
            -0x1_0000_0000 < dy < 0x1_0000_0000,
    ;
    dx * dx + dy * dy
}

/// Circle-based collision test.
pub fn check_collision(pos1: Vec2, r1: i32, pos2: Vec2, r2: i32) -> (hit: bool)
    ensures
        hit == circles_overlap(pos1, r1, pos2, r2),
{
    let reach: i128 = r1 as i128 + r2 as i128;
    assert(0 <= reach * reach <= 0x1_0000_0000 * 0x1_0000_0000) by (nonlinear_arith)
        requires
            -0x1_0000_0000 <= reach < 0x1_0000_0000,
    ;
    reach > 0 && distance_squared(pos1, pos2) < reach * reach
}

/// Tells whether `score` has reached the next extra-life milestone, and if so
/// moves the milestone forward by one step, however far the score is ahead.
pub fn check_extra_life(score: u32, last_score: &mut u32) -> (earned: bool)
    requires
        *old(last_score) + EXTRA_LIFE_STEP <= u32::MAX,
    ensures
        earned == (score >= *old(last_score) + EXTRA_LIFE_STEP),
        earned ==> *final(last_score) == *old(last_score) + EXTRA_LIFE_STEP,
        !earned ==> *final(last_score) == *old(last_score),
{
    if score >= *last_score + 3000 {
        *last_score += 3000;
        true
    } else {
        false
    }
}

/// Wraps a position around a screen given by its far corner.
pub fn wrap_screen(pos: Vec2, screen: Vec2) -> (wrapped: Vec2)
    ensures
        wrapped == wrap_spec(pos, screen.x, screen.y),
{
    wrap_pos(pos, screen.x, screen.y)
}

/// Wrapping keeps a coordinate that lies on `[0, bound]`, both ends included,
/// and sends one that lies outside to the opposite end: zero for one above the
/// bound, the bound for one below zero.
pub proof fn lemma_wrap_coord(v: int, bound: int)
    requires
        bound >= 0,
    ensures
        0 <= v <= bound ==> wrap_coord(v, bound) == v,
        wrap_coord(0, bound) == 0,
        wrap_coord(bound, bound) == bound,
        v > bound ==> wrap_coord(v, bound) == 0,
        v < 0 ==> wrap_coord(v, bound) == bound,
        0 <= wrap_coord(v, bound) <= bound,
{
}

/// Wrapping a wrapped position changes nothing.
pub proof fn lemma_wrap_idempotent(pos: Vec2, width: i32, height: i32)
    requires
        width >= 0,
        height >= 0,
    ensures
        wrap_spec(wrap_spec(pos, width, height), width, height) == wrap_spec(pos, width, height),
{
}

/// The overlap test does not depend on the order of the two circles.
pub proof fn lemma_overlap_symmetric(pos1: Vec2, r1: i32, pos2: Vec2, r2: i32)
    ensures
        circles_overlap(pos1, r1, pos2, r2) == circles_overlap(pos2, r2, pos1, r1),
{
    assert((pos1.x - pos2.x) * (pos1.x - pos2.x) == (pos2.x - pos1.x) * (pos2.x - pos1.x))
        by (nonlinear_arith);
    assert((pos1.y - pos2.y) * (pos1.y - pos2.y) == (pos2.y - pos1.y) * (pos2.y - pos1.y))
        by (nonlinear_arith);
}

/// For circles whose radii are not negative, the test holds exactly when the
/// centres are at a distance `d` with `d < r1 + r2`: it fails where `d` equals
/// the sum of the radii, and holds for every smaller `d`.
pub proof fn lemma_overlap_boundary(pos1: Vec2, r1: i32, pos2: Vec2, r2: i32, d: int)
    requires
        r1 >= 0,
        r2 >= 0,
        d >= 0,
        d * d == dist_sq(pos1, pos2),
    ensures
        circles_overlap(pos1, r1, pos2, r2) == (d < r1 + r2),
        d == r1 + r2 ==> !circles_overlap(pos1, r1, pos2, r2),
{
    let s = r1 + r2;
    if d < s {
        assert(d * d < s * s) by (nonlinear_arith)
            requires
                0 <= d < s,
        ;
    } else {
        assert(d * d >= s * s) by (nonlinear_arith)
            requires
                0 <= s <= d,
        ;
    }
}

/// `r` is the integer part of the square root of `n`.
pub open spec fn is_sqrt(n: int, r: int) -> bool {
    r >= 0 && r * r <= n < (r + 1) * (r + 1)
}

/// The integer part of the square root of `n`.
pub open spec fn int_sqrt(n: int) -> int {
    choose|r: int| is_sqrt(n, r)
}

/// The heading from `from` towards `to`: the displacement divided by the
/// integer part of its length, scaled by `UNIT`; no heading where the two
/// points are the same.
pub open spec fn aim_spec(from: Vec2, to: Vec2) -> Vec2 {
    let len = int_sqrt(dist_sq(to, from));
    if len == 0 {
        Vec2 { x: 0, y: 0 }
    } else {
        Vec2 {
            x: trunc_div((to.x - from.x) * 1000, len) as i32,
            y: trunc_div((to.y - from.y) * 1000, len) as i32,
        }
    }
}

/// A number has one integer square root.
pub proof fn lemma_sqrt_unique(n: int, a: int, b: int)
    requires
        is_sqrt(n, a),
        is_sqrt(n, b),
    ensures
        a == b,
{
    if a < b {
        assert((a + 1) * (a + 1) <= b * b) by (nonlinear_arith)
            requires
                0 <= a + 1 <= b,
        ;
    }
    if b < a {
        assert((b + 1) * (b + 1) <= a * a) by (nonlinear_arith)
            requires
                0 <= b + 1 <= a,
        ;
    }
}

/// Computes the integer part of a square root.
pub fn isqrt(n: u128) -> (r: u64)
    requires
        n <= 0x4_0000_0000_0000_0000,
    ensures
        is_sqrt(n as int, r as int),
        r == int_sqrt(n as int),
        r <= 0x2_0000_0000,
{
    let mut lo: u128 = 0;
    let mut hi: u128 = 0x2_0000_0001;
    assert(0x2_0000_0001 * 0x2_0000_0001 > 0x4_0000_0000_0000_0000) by (nonlinear_arith);
    while hi - lo > 1
        invariant
            lo < hi <= 0x2_0000_0001,
            lo * lo <= n < hi * hi,
        decreases hi - lo,
    {
        let mid: u128 = lo + (hi - lo) / 2;
        assert(mid * mid <= 0x2_0000_0001 * 0x2_0000_0001) by (nonlinear_arith)
            requires
                0 <= mid <= 0x2_0000_0001,
        ;
        if mid * mid <= n {
            lo = mid;
        } else {
            hi = mid;
        }
    }
    proof {
        assert(hi == lo + 1);
        assert(is_sqrt(n as int, lo as int));
        lemma_sqrt_unique(n as int, lo as int, int_sqrt(n as int));
    }
    lo as u64
}

/// No coordinate of a displacement is longer than the displacement.
pub proof fn lemma_leg_within_length(dx: int, dy: int, len: int)
    requires
        is_sqrt(dx * dx + dy * dy, len),
    ensures
        -len <= dx <= len,
        -len <= dy <= len,
{
    assert(dy * dy >= 0) by (nonlinear_arith);
    assert(dx * dx >= 0) by (nonlinear_arith);
    if dx > len {
        assert(dx * dx >= (len + 1) * (len + 1)) by (nonlinear_arith)
            requires
                0 <= len + 1 <= dx,
        ;
    }
    if dx < -len {
        assert(dx * dx >= (len + 1) * (len + 1)) by (nonlinear_arith)
            requires
                0 <= len + 1 <= -dx,
        ;
    }
    if dy > len {
        assert(dy * dy >= (len + 1) * (len + 1)) by (nonlinear_arith)
            requires
                0 <= len + 1 <= dy,
        ;
    }
    if dy < -len {
        assert(dy * dy >= (len + 1) * (len + 1)) by (nonlinear_arith)
            requires
                0 <= len + 1 <= -dy,
        ;
    }
}

/// Computes the heading from one point towards another.
pub fn aim(from: Vec2, to: Vec2) -> (dir: Vec2)
    ensures
        dir == aim_spec(from, to),
        -1000 <= dir.x <= 1000,
        -1000 <= dir.y <= 1000,
{
    let d = distance_squared(to, from);
    let len = isqrt(d as u128) as i64;
    if len == 0 {
        Vec2 { x: 0, y: 0 }
    } else {
        let dx: i64 = to.x as i64 - from.x as i64;
        let dy: i64 = to.y as i64 - from.y as i64;
        proof {
            lemma_leg_within_length(dx as int, dy as int, len as int);
            lemma_quotient_within(dx as int, len as int);
            lemma_quotient_within(dy as int, len as int);
        }
        let x = div_toward_zero(dx * 1000, len);
        let y = div_toward_zero(dy * 1000, len);
        Vec2 { x: x as i32, y: y as i32 }
    }
}

/// A thousand times a number, divided by a bound on its magnitude, is at most
/// a thousand in magnitude.
pub proof fn lemma_quotient_within(v: int, len: int)
    requires
        len > 0,
        -len <= v <= len,
    ensures
        -1000 <= trunc_div(v * 1000, len) <= 1000,
{
    if v >= 0 {
        assert(0 <= (v * 1000) / len <= 1000) by (nonlinear_arith)
            requires
                len > 0,
                0 <= v <= len,
        ;
    } else {
        assert(0 <= (-(v * 1000)) / len <= 1000) by (nonlinear_arith)
            requires
                len > 0,
                0 <= -v <= len,
        ;
    }
}

/// Tells whether `value` times `factor` thousandths fits the range of a
/// coordinate.
pub fn fits_scaled(value: i32, factor: i32) -> (fits: bool)
    ensures
        fits == (i32::MIN <= scale_spec(value as int, factor as int) <= i32::MAX),
{
    assert(-0x4000_0000_0000_0000 <= (value as int) * (factor as int) <= 0x4000_0000_0000_0000)
        by (nonlinear_arith)
        requires
            -0x8000_0000 <= value <= 0x8000_0000,
            -0x8000_0000 <= factor <= 0x8000_0000,
    ;
    let q = div_toward_zero((value as i64) * (factor as i64), UNIT as i64);
    q >= i32::MIN as i64 && q <= i32::MAX as i64
}

} // verus!
