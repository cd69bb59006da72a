//! Two-dimensional fixed-point vectors and rotations.
//!
//! A [`Vec2`] holds milli-unit coordinates.  A [`Rot`] is a rotation stored
//! as its cosine/sine pair scaled by [`SCALE`]; composing and applying
//! rotations divides the products back down by `SCALE`, truncating toward
//! zero.  The fixed-point sine is the engine's own quadratic approximation
//! ([`Rot::from_mrad`]), exact at 0 and at right angles.

use vstd::prelude::*;

use crate::consts::{MAX_COORD, SCALE, PI_MRAD, HALF_PI_MRAD};
use crate::fxp::{fdiv, sclamp, isqrt, is_isqrt, div_trunc, clamp128, isqrt_u128, lemma_isqrt};

verus! {

/// A point or direction in milli-units.
#[derive(Clone, Copy, PartialEq, Eq, Structural, Debug)]
pub struct Vec2 {
    pub x: i64,
    pub y: i64,
}

/// A rotation, stored as `(cos, sin)` scaled by [`SCALE`].
#[derive(Clone, Copy, PartialEq, Eq, Structural, Debug)]
pub struct Rot {
    pub c: i64,
    pub s: i64,
}

/// Squared Euclidean norm.
pub open spec fn snorm_sq(x: int, y: int) -> int {
    x * x + y * y
}

/// Squared distance between two points.
pub open spec fn sdist_sq(ax: int, ay: int, bx: int, by: int) -> int {
    snorm_sq(ax - bx, ay - by)
}

/// Rotation applied to a vector: the rotation matrix product, each
/// component divided back down by `SCALE` with truncation.
pub open spec fn srot_apply(c: int, s: int, x: int, y: int) -> (int, int) {
    (fdiv(c * x - s * y, SCALE as int), fdiv(s * x + c * y, SCALE as int))
}

/// Composition of two rotations (complex multiplication over the scaled
/// cosine/sine pairs).
pub open spec fn srot_mul(c1: int, s1: int, c2: int, s2: int) -> (int, int) {
    (fdiv(c1 * c2 - s1 * s2, SCALE as int), fdiv(s1 * c2 + c1 * s2, SCALE as int))
}

/// The engine's fixed-point sine on `[0, PI_MRAD]` milli-radians: the
/// quadratic rational approximation `16 t (P - t) S / (5 P^2 - 4 t (P - t))`.
pub open spec fn ssin_half(t: int) -> int {
    fdiv(16 * t * (PI_MRAD as int - t) * (SCALE as int),
        5 * (PI_MRAD as int) * (PI_MRAD as int) - 4 * t * (PI_MRAD as int - t))
}

/// Fixed-point sine on `[-PI_MRAD, PI_MRAD]`, odd extension of [`ssin_half`].
pub open spec fn ssin(t: int) -> int {
    if t >= 0 {
        ssin_half(t)
    } else {
        -ssin_half(-t)
    }
}

/// Fixed-point cosine on `[-PI_MRAD, PI_MRAD]`: `sin(HALF_PI - |t|)`.
pub open spec fn scos(t: int) -> int {
    ssin(HALF_PI_MRAD as int - (if t >= 0 { t } else { -t }))
}

impl Vec2 {
    /// Every engine coordinate is held in this range.
    pub open spec fn in_bounds(self) -> bool {
        -MAX_COORD <= self.x <= MAX_COORD && -MAX_COORD <= self.y <= MAX_COORD
    }

    pub fn new(x: i64, y: i64) -> (r: Vec2)
        ensures
            r.x == x,
            r.y == y,
    {
        Vec2 { x, y }
    }

    /// Component-wise sum, clamped into the coordinate range.
    pub fn add_clamped(self, o: Vec2) -> (r: Vec2)
        ensures
            r.x == sclamp(self.x + o.x, -MAX_COORD as int, MAX_COORD as int),
            r.y == sclamp(self.y + o.y, -MAX_COORD as int, MAX_COORD as int),
            r.in_bounds(),
    {
        Vec2 {
            x: clamp128(self.x as i128 + o.x as i128, -MAX_COORD, MAX_COORD),
            y: clamp128(self.y as i128 + o.y as i128, -MAX_COORD, MAX_COORD),
        }
    }

    /// `self * num / den`, component-wise, truncating toward zero.
    pub fn scale_div(self, num: i64, den: i64) -> (r: Vec2)
        requires
            self.in_bounds(),
            den > 0,
            -1_000_000_000 <= num <= 1_000_000_000,
        ensures
            r.x == fdiv(self.x * num, den as int),
            r.y == fdiv(self.y * num, den as int),
    {
        proof {
            crate::fxp::lemma_mul_abs_bound(self.x as int, num as int, MAX_COORD as int,
                1_000_000_000);
            crate::fxp::lemma_mul_abs_bound(self.y as int, num as int, MAX_COORD as int,
                1_000_000_000);
        }
        let xn = self.x as i128 * num as i128;
        let yn = self.y as i128 * num as i128;
        proof {
            crate::fxp::lemma_fdiv_within(xn as int, den as int);
            crate::fxp::lemma_fdiv_within(yn as int, den as int);
        }
        let x = div_trunc(xn, den as i128);
        let y = div_trunc(yn, den as i128);
        Vec2 { x: x as i64, y: y as i64 }
    }

    /// Squared distance to another point, exact in `i128`.
    pub fn dist_sq(self, o: Vec2) -> (r: i128)
        requires
            self.in_bounds(),
            o.in_bounds(),
        ensures
            r == sdist_sq(self.x as int, self.y as int, o.x as int, o.y as int),
            0 <= r <= 8_000_000_000_000_000_000,
    {
        let dx = self.x as i128 - o.x as i128;
        let dy = self.y as i128 - o.y as i128;
        proof {
            crate::fxp::lemma_mul_abs_bound(dx as int, dx as int, 2 * MAX_COORD as int,
                2 * MAX_COORD as int);
            crate::fxp::lemma_mul_abs_bound(dy as int, dy as int, 2 * MAX_COORD as int,
                2 * MAX_COORD as int);
            crate::fxp::lemma_square_nonneg(dx as int);
            crate::fxp::lemma_square_nonneg(dy as int);
        }
        let r = dx * dx + dy * dy;
        r
    }

    /// Euclidean distance to another point: floor square root of
    /// [`Vec2::dist_sq`].
    pub fn dist(self, o: Vec2) -> (r: i64)
        requires
            self.in_bounds(),
            o.in_bounds(),
        ensures
            r == isqrt(sdist_sq(self.x as int, self.y as int, o.x as int, o.y as int)),
            is_isqrt(sdist_sq(self.x as int, self.y as int, o.x as int, o.y as int), r as int),
            0 <= r <= 3_000_000_000,
    {
        let d2 = self.dist_sq(o);
        let r = isqrt_u128(d2 as u128);
        proof {
            let n = sdist_sq(self.x as int, self.y as int, o.x as int, o.y as int);
            assert(d2 as u128 as int == n);
            lemma_isqrt(n);
            if r as int > 3_000_000_000 {
                assert(3_000_000_000 * 3_000_000_000 < (r as int) * (r as int))
                    by (nonlinear_arith)
                    requires r as int > 3_000_000_000;
            }
        }
        r as i64
    }
}

impl Rot {
    /// Every rotation component is held within one scale unit.
    pub open spec fn bounded(self) -> bool {
        -SCALE <= self.c <= SCALE && -SCALE <= self.s <= SCALE
    }

    /// Rotation by an angle given in milli-radians, through the engine's
    /// fixed-point sine and cosine.
    pub fn from_mrad(t: i64) -> (r: Rot)
        requires
            -PI_MRAD <= t <= PI_MRAD,
        ensures
            r.s == ssin(t as int),
            r.c == scos(t as int),
            r.bounded(),
    {
        proof {
            lemma_ssin_bounded(t as int);
            lemma_ssin_bounded(HALF_PI_MRAD as int - (if t >= 0 { t as int } else {
                -t as int
            }));
        }
        let s = sin_mrad(t);
        let c = sin_mrad(HALF_PI_MRAD - if t >= 0 { t } else { -t });
        Rot { c, s }
    }

    /// Loose bound kept by drifting (interpolated) orientations.
    pub open spec fn loosely_bounded(self) -> bool {
        -2 * SCALE <= self.c <= 2 * SCALE && -2 * SCALE <= self.s <= 2 * SCALE
    }

    /// Apply the rotation to a vector.
    pub fn apply(self, v: Vec2) -> (r: Vec2)
        requires
            self.loosely_bounded(),
            v.in_bounds(),
        ensures
            r.x == srot_apply(self.c as int, self.s as int, v.x as int, v.y as int).0,
            r.y == srot_apply(self.c as int, self.s as int, v.x as int, v.y as int).1,
            vstd::math::abs(r.x as int) <= 2 * (vstd::math::abs(v.x as int) + vstd::math::abs(
                v.y as int,
            )),
            vstd::math::abs(r.y as int) <= 2 * (vstd::math::abs(v.x as int) + vstd::math::abs(
                v.y as int,
            )),
    {
        let ghost avx = vstd::math::abs(v.x as int) as int;
        let ghost avy = vstd::math::abs(v.y as int) as int;
        proof {
            crate::fxp::lemma_mul_abs_bound(self.c as int, v.x as int, 2 * SCALE as int, avx);
            crate::fxp::lemma_mul_abs_bound(self.s as int, v.y as int, 2 * SCALE as int, avy);
            crate::fxp::lemma_mul_abs_bound(self.s as int, v.x as int, 2 * SCALE as int, avx);
            crate::fxp::lemma_mul_abs_bound(self.c as int, v.y as int, 2 * SCALE as int, avy);
            assert(2 * SCALE as int * avx + 2 * SCALE as int * avy
                == (2 * (avx + avy)) * SCALE as int) by (nonlinear_arith);
        }
        let xn = self.c as i128 * v.x as i128 - self.s as i128 * v.y as i128;
        let yn = self.s as i128 * v.x as i128 + self.c as i128 * v.y as i128;
        proof {
            crate::fxp::lemma_fdiv_magnitude(xn as int, SCALE as int, 2 * (avx + avy));
            crate::fxp::lemma_fdiv_magnitude(yn as int, SCALE as int, 2 * (avx + avy));
        }
        let x = div_trunc(xn, SCALE as i128);
        let y = div_trunc(yn, SCALE as i128);
        Vec2 { x: x as i64, y: y as i64 }
    }

    /// Compose two rotations: `self` followed by `o` (rotation angles add).
    pub fn mul(self, o: Rot) -> (r: Rot)
        requires
            self.bounded(),
            o.bounded(),
        ensures
            r.c == srot_mul(self.c as int, self.s as int, o.c as int, o.s as int).0,
            r.s == srot_mul(self.c as int, self.s as int, o.c as int, o.s as int).1,
            -2 * SCALE <= r.c <= 2 * SCALE,
            -2 * SCALE <= r.s <= 2 * SCALE,
    {
        proof {
            crate::fxp::lemma_mul_abs_bound(self.c as int, o.c as int, SCALE as int, SCALE as int);
            crate::fxp::lemma_mul_abs_bound(self.s as int, o.s as int, SCALE as int, SCALE as int);
            crate::fxp::lemma_mul_abs_bound(self.s as int, o.c as int, SCALE as int, SCALE as int);
            crate::fxp::lemma_mul_abs_bound(self.c as int, o.s as int, SCALE as int, SCALE as int);
        }
        let cn = self.c as i128 * o.c as i128 - self.s as i128 * o.s as i128;
        let sn = self.s as i128 * o.c as i128 + self.c as i128 * o.s as i128;
        proof {
            crate::fxp::lemma_fdiv_magnitude(cn as int, SCALE as int, 2 * SCALE as int);
            crate::fxp::lemma_fdiv_magnitude(sn as int, SCALE as int, 2 * SCALE as int);
        }
        let c = div_trunc(cn, SCALE as i128);
        let s = div_trunc(sn, SCALE as i128);
        Rot { c: c as i64, s: s as i64 }
    }
}

/// The fixed-point sine stays within one scale unit.
pub proof fn lemma_ssin_bounded(t: int)
    requires
        -PI_MRAD <= t <= PI_MRAD,
    ensures
        -SCALE <= ssin(t) <= SCALE,
{
    if t >= 0 {
        lemma_ssin_half_bounded(t);
    } else {
        lemma_ssin_half_bounded(-t);
    }
}

proof fn lemma_ssin_half_bounded(t: int)
    requires
        0 <= t <= PI_MRAD,
    ensures
        0 <= ssin_half(t) <= SCALE,
{
    let p = PI_MRAD as int;
    let sc = SCALE as int;
    let num = 16 * t * (p - t) * sc;
    let den = 5 * p * p - 4 * t * (p - t);
    assert(den >= 4 * p * p && num <= sc * den && 0 <= num) by (nonlinear_arith)
        requires
            0 <= t <= p,
            p == PI_MRAD as int,
            sc == SCALE as int,
            num == 16 * t * (p - t) * sc,
            den == 5 * p * p - 4 * t * (p - t),
    ;
    crate::fxp::lemma_fdiv_magnitude(num, den, sc);
}

/// Executable fixed-point sine on `[-PI_MRAD, PI_MRAD]` milli-radians.
pub fn sin_mrad(t: i64) -> (r: i64)
    requires
        -PI_MRAD <= t <= PI_MRAD,
    ensures
        r == ssin(t as int),
        -SCALE <= r <= SCALE,
{
    let u = if t >= 0 { t } else { -t };
    proof {
        // The parabola t * (PI - t) peaks at PI / 2.
        assert(0 <= (u as int) * (PI_MRAD as int - u as int) <= 2_468_041) by (nonlinear_arith)
            requires
                0 <= u as int <= PI_MRAD as int,
                PI_MRAD as int == 3142,
        ;
    }
    let w = u * (PI_MRAD - u);
    let num = 16_000 * (w as i128);  // 16 * SCALE * w
    let den = 49_360_820 - 4 * (w as i128);  // 5 * PI_MRAD * PI_MRAD - 4 * w
    let q = div_trunc(num, den);
    proof {
        assert(num as int == 16 * (u as int) * (PI_MRAD as int - u as int) * (SCALE as int)
            && den as int == 5 * (PI_MRAD as int) * (PI_MRAD as int)
                - 4 * (u as int) * (PI_MRAD as int - u as int)) by (nonlinear_arith)
            requires
                num as int == 16_000 * (w as int),
                den as int == 49_360_820 - 4 * (w as int),
                w as int == (u as int) * (PI_MRAD as int - u as int),
                PI_MRAD as int == 3142,
                SCALE as int == 1000,
        ;
        lemma_ssin_half_bounded(u as int);
        assert(q == ssin_half(u as int));
    }
    let r = q as i64;
    if t >= 0 {
        r
    } else {
        -r
    }
}

} // verus!
