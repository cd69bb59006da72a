//! Fixed-point scalar arithmetic.
//!
//! The engine stores continuous quantities as `i64` milli-unit values and
//! widens to `i128` for intermediate products.  Division is truncated
//! toward zero ([`fdiv`]), matching what the kinematics formulas state, and
//! square roots are integer floor square roots ([`isqrt`]).

use vstd::prelude::*;

verus! {

/// Division truncated toward zero (the spec-level `/` rounds toward
/// negative infinity on negative operands; the engine's formulas truncate).
pub open spec fn fdiv(a: int, b: int) -> int {
    if a >= 0 {
        a / b
    } else {
        -((-a) / b)
    }
}

/// Clamp `v` into `[lo, hi]`.
pub open spec fn sclamp(v: int, lo: int, hi: int) -> int {
    if v < lo {
        lo
    } else if v > hi {
        hi
    } else {
        v
    }
}

/// Floor square root predicate: `r` is the integer square root of `n`.
pub open spec fn is_isqrt(n: int, r: int) -> bool {
    0 <= r && r * r <= n && n < (r + 1) * (r + 1)
}

/// Floor square root of a non-negative integer.
pub closed spec fn isqrt(n: int) -> int {
    choose|r: int| is_isqrt(n, r)
}

proof fn lemma_isqrt_exists(n: int) -> (r: int)
    requires
        n >= 0,
    ensures
        is_isqrt(n, r),
    decreases n,
{
    if n == 0 {
        assert(is_isqrt(0, 0));
        0
    } else {
        let p = lemma_isqrt_exists(n - 1);
        if n < (p + 1) * (p + 1) {
            assert(is_isqrt(n, p));
            p
        } else {
            assert(n == (p + 1) * (p + 1));
            assert(is_isqrt(n, p + 1)) by (nonlinear_arith)
                requires
                    p >= 0,
                    n == (p + 1) * (p + 1),
            ;
            p + 1
        }
    }
}

/// The integer square root satisfies its defining predicate, and is the
/// only integer that does.
pub proof fn lemma_isqrt(n: int)
    requires
        n >= 0,
    ensures
        is_isqrt(n, isqrt(n)),
{
    let w = lemma_isqrt_exists(n);
    assert(is_isqrt(n, w));
}

/// Two integers satisfying the floor-square-root predicate for `n` agree.
pub proof fn lemma_isqrt_unique(n: int, r1: int, r2: int)
    requires
        is_isqrt(n, r1),
        is_isqrt(n, r2),
    ensures
        r1 == r2,
{
    if r1 < r2 {
        assert((r1 + 1) * (r1 + 1) <= r2 * r2) by (nonlinear_arith)
            requires 0 <= r1, r1 < r2;
    }
    if r2 < r1 {
        assert((r2 + 1) * (r2 + 1) <= r1 * r1) by (nonlinear_arith)
            requires 0 <= r2, r2 < r1;
    }
}

/// Truncated division of `i128` values, the executable form of [`fdiv`].
pub fn div_trunc(a: i128, b: i128) -> (r: i128)
    requires
        b > 0,
        a > i128::MIN,
    ensures
        r == fdiv(a as int, b as int),
{
    if a >= 0 {
        let q = (a as u128) / (b as u128);
        q as i128
    } else {
        let m = (-a) as u128;
        let q = m / (b as u128);
        -(q as i128)
    }
}

/// Clamp an `i128` into an `i64` interval, the executable form of [`sclamp`].
pub fn clamp128(v: i128, lo: i64, hi: i64) -> (r: i64)
    requires
        lo <= hi,
    ensures
        r == sclamp(v as int, lo as int, hi as int),
{
    if v < lo as i128 {
        lo
    } else if v > hi as i128 {
        hi
    } else {
        v as i64
    }
}

/// Executable floor square root over the full `u128` range.
pub fn isqrt_u128(n: u128) -> (r: u64)
    ensures
        r == isqrt(n as int),
        is_isqrt(n as int, r as int),
{
    let mut lo: u128 = 0;
    let mut hi: u128 = 0x1_0000_0000_0000_0000;
    if n < hi {
        // For small n, the root is below any overflow concern already;
        // tighten hi so mid * mid cannot wrap even without this branch.
        hi = if n < 0x1_0000_0000 { 0x1_0000_0000 } else { hi };
    }
    while lo + 1 < hi
        invariant
            0 <= lo < hi,
            hi <= 0x1_0000_0000_0000_0000,
            (lo as int) * (lo as int) <= n as int,
            (n as int) < (hi as int) * (hi as int),
        decreases hi - lo,
    {
        let mid = lo + (hi - lo) / 2;
        assert(mid < 0x1_0000_0000_0000_0000);
        assert((mid as int) * (mid as int) < 0x1_0000_0000_0000_0000_0000_0000_0000_0000)
            by (nonlinear_arith)
            requires 0 <= (mid as int) < 0x1_0000_0000_0000_0000;
        if mid * mid <= n {
            lo = mid;
        } else {
            hi = mid;
        }
    }
    proof {
        assert((lo as int + 1) * (lo as int + 1) >= (hi as int) * (hi as int)) by (nonlinear_arith)
            requires 0 <= lo, lo + 1 >= hi, hi >= 1;
        lemma_isqrt(n as int);
        lemma_isqrt_unique(n as int, lo as int, isqrt(n as int));
    }
    lo as u64
}

/// Bounds of truncated division: `fdiv(a, b) * b` is within `b` of `a`,
/// on the side of zero.
pub proof fn lemma_fdiv_bounds(a: int, b: int)
    requires
        b > 0,
    ensures
        a >= 0 ==> fdiv(a, b) * b <= a < fdiv(a, b) * b + b,
        a < 0 ==> fdiv(a, b) * b - b < a <= fdiv(a, b) * b,
        vstd::math::abs(a) <= b * b ==> vstd::math::abs(fdiv(a, b)) <= b,
{
    let m = if a >= 0 { a } else { -a };
    let q = m / b;
    vstd::arithmetic::div_mod::lemma_fundamental_div_mod(m, b);
    vstd::arithmetic::div_mod::lemma_mod_division_less_than_divisor(m, b);
    vstd::arithmetic::div_mod::lemma_div_pos_is_pos(m, b);
    assert(m == b * q + m % b);
    assert(q * b == b * q) by (nonlinear_arith);
    assert((-q) * b == -(b * q)) by (nonlinear_arith);
    if vstd::math::abs(a) <= b * b {
        vstd::arithmetic::div_mod::lemma_div_is_ordered(m, b * b, b);
        vstd::arithmetic::div_mod::lemma_div_by_multiple(b, b);
    }
}

/// A product is bounded by the product of the bounds.
pub proof fn lemma_mul_abs_bound(a: int, b: int, ca: int, cb: int)
    requires
        -ca <= a <= ca,
        -cb <= b <= cb,
    ensures
        -(ca * cb) <= a * b <= ca * cb,
{
    assert(-(ca * cb) <= a * b <= ca * cb) by (nonlinear_arith)
        requires
            -ca <= a <= ca,
            -cb <= b <= cb,
    ;
}

/// Squares are non-negative.
pub proof fn lemma_square_nonneg(a: int)
    ensures
        a * a >= 0,
{
    assert(a * a >= 0) by (nonlinear_arith);
}

/// Truncated division never grows the magnitude of the numerator.
pub proof fn lemma_fdiv_within(a: int, b: int)
    requires
        b > 0,
    ensures
        vstd::math::abs(fdiv(a, b)) <= vstd::math::abs(a),
        a >= 0 ==> 0 <= fdiv(a, b) <= a,
        a < 0 ==> a <= fdiv(a, b) <= 0,
{
    let m = if a >= 0 { a } else { -a };
    vstd::arithmetic::div_mod::lemma_div_pos_is_pos(m, b);
    assert(m <= m * b) by (nonlinear_arith)
        requires m >= 0 && b >= 1;
    vstd::arithmetic::div_mod::lemma_div_is_ordered(m, m * b, b);
    vstd::arithmetic::div_mod::lemma_div_by_multiple(m, b);
}

/// A numerator bounded by `c` times the denominator divides to within `c`.
pub proof fn lemma_fdiv_magnitude(a: int, b: int, c: int)
    requires
        b > 0,
        0 <= c,
        -(c * b) <= a <= c * b,
    ensures
        -c <= fdiv(a, b) <= c,
{
    let m = if a >= 0 { a } else { -a };
    vstd::arithmetic::div_mod::lemma_div_pos_is_pos(m, b);
    vstd::arithmetic::div_mod::lemma_div_is_ordered(m, c * b, b);
    vstd::arithmetic::div_mod::lemma_div_by_multiple(c, b);
}

/// Truncated division is antitone in a positive denominator, for a
/// non-negative numerator.
pub proof fn lemma_fdiv_ordered_by_denominator(a: int, b1: int, b2: int)
    requires
        a >= 0,
        0 < b1 <= b2,
    ensures
        fdiv(a, b1) >= fdiv(a, b2),
{
    vstd::arithmetic::div_mod::lemma_div_is_ordered_by_denominator(a, b1, b2);
}

} // verus!
