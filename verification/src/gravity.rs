//! The gravity field of the asteroids.
//!
//! Each asteroid of radius `r` pulls a point at distance `d > 1` unit with
//! acceleration `mass / d^2` toward its centre, `mass = 3 r^2`; asteroids
//! at distance one unit or less are skipped (singularity guard).  The
//! returned acceleration is not pre-multiplied by any time step — callers
//! integrate it themselves.

use vstd::prelude::*;

use crate::consts::{UNIT, SCALE, GRAVITY_FACTOR, MAX_RADIUS, MAX_ASTEROIDS};
use crate::fxp::{fdiv, isqrt, is_isqrt, lemma_isqrt, lemma_isqrt_unique, div_trunc,
    lemma_mul_abs_bound, lemma_fdiv_magnitude, lemma_square_nonneg};
use crate::vec2::{Vec2, sdist_sq};
use crate::geom::Circle;

verus! {

/// The gravity "mass" numerator of an asteroid of radius `r`, scaled into
/// milli-units: `3 r^2` with one extra factor of `SCALE`.
pub open spec fn sgrav_num(r: int) -> int {
    GRAVITY_FACTOR * SCALE * r * r
}

/// Acceleration exerted by one asteroid on the point `(px, py)`:
/// `-(mass / d^2) * (delta / d)` componentwise, zero within the guard
/// distance of one unit.
pub open spec fn sgrav_one(cx: int, cy: int, r: int, px: int, py: int) -> (int, int) {
    let dx = px - cx;
    let dy = py - cy;
    let d2 = dx * dx + dy * dy;
    if d2 <= UNIT * UNIT {
        (0, 0)
    } else {
        let d = isqrt(d2);
        (-fdiv(sgrav_num(r) * dx, d * d * d), -fdiv(sgrav_num(r) * dy, d * d * d))
    }
}

/// Sum of [`sgrav_one`] over the first `n` asteroids.
pub open spec fn sgrav_prefix(asts: Seq<Circle>, px: int, py: int, n: int) -> (int, int)
    decreases n,
{
    if n <= 0 {
        (0, 0)
    } else {
        let p = sgrav_prefix(asts, px, py, n - 1);
        let g = sgrav_one(
            asts[n - 1].centre.x as int,
            asts[n - 1].centre.y as int,
            asts[n - 1].radius as int,
            px,
            py,
        );
        (p.0 + g.0, p.1 + g.1)
    }
}

/// Acceleration of the whole field on the point `(px, py)`.
pub open spec fn sgrav_total(asts: Seq<Circle>, px: int, py: int) -> (int, int) {
    sgrav_prefix(asts, px, py, asts.len() as int)
}

/// Magnitude of one asteroid's pull at squared distance `d2`: the floor of
/// `mass / d^2`, zero within the guard.
pub open spec fn sgrav_magnitude(r: int, d2: int) -> int {
    if d2 <= UNIT * UNIT {
        0
    } else {
        fdiv(sgrav_num(r), d2)
    }
}

/// The scaled mass numerator in closed form, with its bounds.
pub proof fn lemma_sgrav_num(r: int)
    requires
        0 <= r <= MAX_RADIUS,
    ensures
        sgrav_num(r) == 3000 * r * r,
        0 <= sgrav_num(r) <= 3_000_000_000_000_000,
{
    assert(GRAVITY_FACTOR * SCALE * r * r == 3000 * r * r && 0 <= 3000 * r * r <= 3_000_000_000_000_000)
        by (nonlinear_arith)
        requires
            GRAVITY_FACTOR as int == 3,
            SCALE as int == 1000,
            0 <= r <= 1_000_000,
    ;
}

/// Each component of one asteroid's pull is bounded by the pull of a
/// largest asteroid at the guard distance.
pub proof fn lemma_sgrav_one_bound(cx: int, cy: int, r: int, px: int, py: int)
    requires
        0 <= r <= MAX_RADIUS,
    ensures
        -3_000_000_000 <= sgrav_one(cx, cy, r, px, py).0 <= 3_000_000_000,
        -3_000_000_000 <= sgrav_one(cx, cy, r, px, py).1 <= 3_000_000_000,
{
    let dx = px - cx;
    let dy = py - cy;
    let d2 = dx * dx + dy * dy;
    lemma_sgrav_num(r);
    if d2 > UNIT * UNIT {
        let d = isqrt(d2);
        lemma_square_nonneg(dx);
        lemma_square_nonneg(dy);
        lemma_isqrt(d2);
        let num = sgrav_num(r);
        assert(d >= 1000 && -d <= dx <= d && -d <= dy <= d) by (nonlinear_arith)
            requires
                is_isqrt(d2, d),
                d2 == dx * dx + dy * dy,
                d2 > 1_000_000,
                dx * dx >= 0,
                dy * dy >= 0,
        ;
        assert(-(3_000_000_000 * (d * d * d)) <= num * dx <= 3_000_000_000 * (d * d * d)
            && -(3_000_000_000 * (d * d * d)) <= num * dy <= 3_000_000_000 * (d * d * d)
            && d * d * d > 0) by (nonlinear_arith)
            requires
                0 <= num <= 3_000_000_000_000_000,
                d >= 1000,
                -d <= dx <= d,
                -d <= dy <= d,
        ;
        lemma_fdiv_magnitude(num * dx, d * d * d, 3_000_000_000);
        lemma_fdiv_magnitude(num * dy, d * d * d, 3_000_000_000);
    }
}

/// Acceleration from one asteroid, the executable form of [`sgrav_one`].
pub fn gravity_one(ast: &Circle, p: Vec2) -> (a: Vec2)
    requires
        ast.wf(),
        p.in_bounds(),
    ensures
        (a.x as int, a.y as int) == sgrav_one(
            ast.centre.x as int,
            ast.centre.y as int,
            ast.radius as int,
            p.x as int,
            p.y as int,
        ),
        -3_000_000_000 <= a.x <= 3_000_000_000,
        -3_000_000_000 <= a.y <= 3_000_000_000,
{
    proof {
        lemma_sgrav_one_bound(ast.centre.x as int, ast.centre.y as int, ast.radius as int,
            p.x as int, p.y as int);
        lemma_sgrav_num(ast.radius as int);
    }
    let d2 = p.dist_sq(ast.centre);
    if d2 <= (UNIT as i128) * (UNIT as i128) {
        Vec2 { x: 0, y: 0 }
    } else {
        let d = isqrt_u128_wrap(d2);
        let dx = p.x as i128 - ast.centre.x as i128;
        let dy = p.y as i128 - ast.centre.y as i128;
        let num = 3000 * (ast.radius as i128) * (ast.radius as i128);
        proof {
            lemma_mul_abs_bound(ast.radius as int, ast.radius as int, 1_000_000, 1_000_000);
            lemma_mul_abs_bound(d as int, d as int, 3_000_000_000, 3_000_000_000);
            lemma_mul_abs_bound(d as int * d as int, d as int, 9_000_000_000_000_000_000,
                3_000_000_000);
            lemma_mul_abs_bound(num as int, dx as int, 3_000_000_000_000_000, 2_000_000_000);
            lemma_mul_abs_bound(num as int, dy as int, 3_000_000_000_000_000, 2_000_000_000);
            assert(d as int * d as int * d as int > 0) by (nonlinear_arith)
                requires d as int >= 1;
        }
        let d3 = d * d * d;
        let ax = div_trunc(num * dx, d3);
        let ay = div_trunc(num * dy, d3);
        Vec2 { x: (-ax) as i64, y: (-ay) as i64 }
    }
}

/// Floor square root of a squared distance, kept as `i128` with the bound
/// a world-sized diagonal obeys.
fn isqrt_u128_wrap(d2: i128) -> (d: i128)
    requires
        0 <= d2 <= 8_000_000_000_000_000_000,
    ensures
        d == isqrt(d2 as int),
        is_isqrt(d2 as int, d as int),
        0 <= d <= 3_000_000_000,
        d2 > 0 ==> d >= 1,
{
    let r = crate::fxp::isqrt_u128(d2 as u128);
    proof {
        assert(d2 as u128 as int == d2 as int);
        lemma_isqrt(d2 as int);
        if r as int > 3_000_000_000 {
            assert(3_000_000_000 * 3_000_000_000 < (r as int) * (r as int)) by (nonlinear_arith)
                requires r as int > 3_000_000_000;
        }
        if d2 > 0 && r == 0 {
            assert((r as int + 1) * (r as int + 1) == 1) by (nonlinear_arith)
                requires r as int == 0;
            assert(false);
        }
    }
    r as i128
}

/// Acceleration of the whole field, the executable form of [`sgrav_total`].
pub fn gravity_accel(asteroids: &Vec<Circle>, p: Vec2) -> (a: Vec2)
    requires
        forall|i: int| 0 <= i < asteroids@.len() ==> (#[trigger] asteroids@[i]).wf(),
        asteroids@.len() <= MAX_ASTEROIDS,
        p.in_bounds(),
    ensures
        (a.x as int, a.y as int) == sgrav_total(asteroids@, p.x as int, p.y as int),
        -192_000_000_000 <= a.x <= 192_000_000_000,
        -192_000_000_000 <= a.y <= 192_000_000_000,
{
    let mut ax: i64 = 0;
    let mut ay: i64 = 0;
    let n = asteroids.len();
    for i in 0..n
        invariant
            n == asteroids@.len() <= MAX_ASTEROIDS,
            forall|j: int| 0 <= j < asteroids@.len() ==> (#[trigger] asteroids@[j]).wf(),
            p.in_bounds(),
            (ax as int, ay as int) == sgrav_prefix(asteroids@, p.x as int, p.y as int, i as int),
            -3_000_000_000 * i <= ax <= 3_000_000_000 * i,
            -3_000_000_000 * i <= ay <= 3_000_000_000 * i,
    {
        let g = gravity_one(&asteroids[i], p);
        ax = ax + g.x;
        ay = ay + g.y;
    }
    Vec2 { x: ax, y: ay }
}

/// Singularity guard: any asteroid at squared distance at most one unit
/// from the query point exerts no pull at all.
pub proof fn lemma_gravity_singularity_guard(cx: int, cy: int, r: int, px: int, py: int)
    requires
        sdist_sq(px, py, cx, cy) <= UNIT * UNIT,
    ensures
        sgrav_one(cx, cy, r, px, py) == (0int, 0int),
        sgrav_magnitude(r, sdist_sq(px, py, cx, cy)) == 0,
{
}

/// Outside the guard the pull magnitude never decreases as the squared
/// distance decreases (the falloff is monotone in the distance).
pub proof fn lemma_gravity_magnitude_monotone(r: int, d2a: int, d2b: int)
    requires
        0 <= r <= MAX_RADIUS,
        UNIT * UNIT < d2a <= d2b,
    ensures
        sgrav_magnitude(r, d2a) >= sgrav_magnitude(r, d2b),
{
    lemma_sgrav_num(r);
    crate::fxp::lemma_fdiv_ordered_by_denominator(sgrav_num(r), d2a, d2b);
}

/// Outside the guard the pull is nonzero wherever the squared distance
/// does not exceed the scaled mass (closer than that, the fixed-point
/// magnitude cannot round down to zero).
pub proof fn lemma_gravity_nonzero(r: int, d2: int)
    requires
        0 <= r <= MAX_RADIUS,
        UNIT * UNIT < d2 <= sgrav_num(r),
    ensures
        sgrav_magnitude(r, d2) >= 1,
{
    lemma_sgrav_num(r);
    vstd::arithmetic::div_mod::lemma_div_by_self(d2);
    vstd::arithmetic::div_mod::lemma_div_is_ordered(d2, sgrav_num(r), d2);
}

/// On the axis through an asteroid's centre the pull of [`sgrav_one`] is
/// exactly [`sgrav_magnitude`], directed back toward the centre.
pub proof fn lemma_gravity_axis(cx: int, cy: int, r: int, px: int, py: int)
    requires
        0 <= r <= MAX_RADIUS,
        py == cy,
        px > cx,
        sdist_sq(px, py, cx, cy) > UNIT * UNIT,
    ensures
        sgrav_one(cx, cy, r, px, py) == (-sgrav_magnitude(r, sdist_sq(px, py, cx, cy)), 0int),
{
    let dx = px - cx;
    let d2 = dx * dx;
    lemma_sgrav_num(r);
    let num = sgrav_num(r);
    assert(is_isqrt(d2, dx) && dx > 1000) by (nonlinear_arith)
        requires
            dx > 0,
            d2 == dx * dx,
            d2 > 1_000_000,
    ;
    lemma_isqrt(d2);
    lemma_isqrt_unique(d2, dx, isqrt(d2));
    vstd::arithmetic::div_mod::lemma_div_pos_is_pos(num, d2);
    let q = fdiv(num, d2);
    vstd::arithmetic::div_mod::lemma_fundamental_div_mod(num, d2);
    vstd::arithmetic::div_mod::lemma_mod_division_less_than_divisor(num, d2);
    let m = num % d2;
    assert(num * dx == (dx * d2) * q + m * dx && 0 <= m * dx < dx * d2 && dx * d2 == dx * dx * dx)
        by (nonlinear_arith)
        requires
            num == d2 * q + m,
            0 <= m < d2,
            dx > 1000,
            d2 == dx * dx,
            q >= 0,
    ;
    vstd::arithmetic::div_mod::lemma_fundamental_div_mod_converse(num * dx, dx * d2, q, m * dx);
    assert(fdiv(num * dx, dx * dx * dx) == q);
    assert(fdiv(num * 0, dx * dx * dx) == 0) by {
        assert(num * 0 == 0) by (nonlinear_arith);
        vstd::arithmetic::div_mod::lemma_div_of0(dx * dx * dx);
    }
}

} // verus!
