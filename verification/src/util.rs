//! Exact fixed-point arithmetic: truncating division and multiplication,
//! integer square root, and vector length / normalization.
//!
//! Every executable function here carries an exact contract phrased over
//! the spec-level counterparts `tdiv`, `mul_fp_s`, `sqrt_floor` and
//! `normalize_spec`, so callers reason about precise integer values.

use vstd::prelude::*;
use vstd::arithmetic::div_mod::{
    lemma_div_is_ordered, lemma_div_pos_is_pos, lemma_fundamental_div_mod, lemma_mod_bound,
};
use crate::settings::FP_SCALE;
use crate::components::{Direction, UNIT_TOL_FP};

verus! {

/// Magnitude of an integer.
pub open spec fn abs_i(a: int) -> int {
    if a >= 0 {
        a
    } else {
        -a
    }
}

/// Division that truncates toward zero, as machine division does; the
/// divisor is expected positive.
pub open spec fn tdiv(a: int, b: int) -> int {
    if a >= 0 {
        a / b
    } else {
        -((-a) / b)
    }
}

/// `a` scaled by `b` in fixed point: the product divided by `FP_SCALE`,
/// truncated toward zero.
pub open spec fn mul_fp_s(a: int, b: int) -> int {
    tdiv(a * b, FP_SCALE as int)
}

/// The integer square root, rounded down.
pub open spec fn sqrt_floor(n: int) -> int {
    choose|r: int| 0 <= r && #[trigger] (r * r) <= n && (r + 1) * (r + 1) > n
}

/// Two integers that both bracket `n` between consecutive squares are the
/// same integer.
proof fn lemma_sqrt_bracket_unique(n: int, a: int, b: int)
    by (nonlinear_arith)
    requires
        0 <= a,
        a * a <= n,
        (a + 1) * (a + 1) > n,
        0 <= b,
        b * b <= n,
        (b + 1) * (b + 1) > n,
    ensures
        a == b,
{
}

/// The square root, rounded down, of a 64-bit value.
pub fn isqrt(n: u64) -> (r: u64)
    ensures
        r * r <= n < (r + 1) * (r + 1),
        r == sqrt_floor(n as int),
{
    let mut lo: u64 = 0;
    let mut hi: u64 = 4_294_967_296;
    while lo + 1 < hi
        invariant
            lo < hi <= 4_294_967_296,
            lo * lo <= n,
            hi * hi > n,
        decreases hi - lo,
    {
        let mid = lo + (hi - lo) / 2;
        assert(lo < mid < hi);
        assert(mid * mid < 18446744073709551616) by (nonlinear_arith)
            requires
                0 <= mid < 4_294_967_296,
        ;
        if mid * mid <= n {
            lo = mid;
        } else {
            hi = mid;
        }
    }
    proof {
        assert(hi == lo + 1);
        assert(0 <= lo as int && (lo as int) * (lo as int) <= n as int && ((lo as int) + 1) * ((
        lo as int) + 1) > n as int);
        lemma_sqrt_bracket_unique(n as int, lo as int, sqrt_floor(n as int));
    }
    lo
}

/// The magnitude of a truncating quotient is the quotient of magnitudes.
proof fn lemma_tdiv_abs(a: int, b: int)
    requires
        b > 0,
    ensures
        abs_i(tdiv(a, b)) == abs_i(a) / b,
        tdiv(a, b) >= 0 <==> (a >= 0 || abs_i(a) / b == 0),
{
    if a >= 0 {
        lemma_div_pos_is_pos(a, b);
    } else {
        lemma_div_pos_is_pos(-a, b);
    }
}

/// Fixed-point multiplication: `a * b / FP_SCALE`, truncated toward zero.
pub fn mul_fp(a: i64, b: i64) -> (r: i64)
    requires
        abs_i(a as int) <= 1_000_000_000_000,
        abs_i(b as int) <= 1_000_000_000_000,
        abs_i(a as int) * abs_i(b as int) <= 9_000_000_000_000_000_000,
    ensures
        r == mul_fp_s(a as int, b as int),
        abs_i(r as int) == abs_i((a as int) * (b as int)) / (FP_SCALE as int),
{
    let ua: u64 = if a >= 0 {
        a as u64
    } else {
        (-a) as u64
    };
    let ub: u64 = if b >= 0 {
        b as u64
    } else {
        (-b) as u64
    };
    assert(ua * ub == abs_i(a as int) * abs_i(b as int) && abs_i((a as int) * (b as int)) == abs_i(
    a as int) * abs_i(b as int)) by (nonlinear_arith)
        requires
            ua == abs_i(a as int),
            ub == abs_i(b as int),
    ;
    let up: u64 = ua * ub;
    let uq: u64 = up / 1_000_000;
    proof {
        lemma_div_is_ordered(up as int, 9_000_000_000_000_000_000, 1_000_000);
        lemma_div_pos_is_pos(up as int, 1_000_000);
        lemma_tdiv_abs((a as int) * (b as int), FP_SCALE as int);
    }
    if (a < 0) != (b < 0) {
        proof {
            if up / 1_000_000 != 0 {
                assert((a as int) * (b as int) < 0) by (nonlinear_arith)
                    requires
                        abs_i((a as int) * (b as int)) / 1_000_000 != 0,
                        (a < 0) != (b < 0),
                ;
            }
        }
        -(uq as i64)
    } else {
        proof {
            assert((a as int) * (b as int) >= 0) by (nonlinear_arith)
                requires
                    (a < 0) == (b < 0),
            ;
        }
        uq as i64
    }
}

/// Shortest squared length a vector may have and still be normalized: the
/// fixed-point grid is too coarse below it (length under 0.1 pixel) for
/// the result to stay within `UNIT_TOL_FP` of unit length.
pub const NORMALIZE_MIN_SQ: i64 = 10_000_000_000;

/// Largest squared length `vector_normalize` accepts (length 8 pixels);
/// keeps the scaled numerator of the component division inside 64 bits.
pub const NORMALIZE_MAX_SQ: i64 = 64_000_000_000_000;

/// The exact value of normalizing `v` on the fixed-point grid: each
/// component is scaled by `FP_SCALE` and divided, truncating toward zero,
/// by the rounded-down length of `v`.
pub open spec fn normalize_spec(v: Direction) -> Direction {
    let len = sqrt_floor(v.norm_sq());
    Direction { x: tdiv(v.x * FP_SCALE, len) as i64, y: tdiv(v.y * FP_SCALE, len) as i64 }
}

/// Squared length of a direction vector, exact.
pub fn dir_norm_sq(v: &Direction) -> (r: i64)
    requires
        abs_i(v.x as int) <= 2_000_000_000,
        abs_i(v.y as int) <= 2_000_000_000,
    ensures
        r == v.norm_sq(),
        0 <= r <= 8_000_000_000_000_000_000,
{
    proof {
        assert(v.x * v.x <= 4_000_000_000_000_000_000 && 0 <= v.x * v.x) by (nonlinear_arith)
            requires
                abs_i(v.x as int) <= 2_000_000_000,
        ;
        assert(v.y * v.y <= 4_000_000_000_000_000_000 && 0 <= v.y * v.y) by (nonlinear_arith)
            requires
                abs_i(v.y as int) <= 2_000_000_000,
        ;
    }
    v.x * v.x + v.y * v.y
}

/// Length of a vector, rounded down to the fixed-point grid.
pub fn vector_length(v: &Direction) -> (r: i64)
    requires
        abs_i(v.x as int) <= 2_000_000_000,
        abs_i(v.y as int) <= 2_000_000_000,
    ensures
        r == sqrt_floor(v.norm_sq()),
        0 <= r <= 3_000_000_000,
        r * r <= v.norm_sq() < (r + 1) * (r + 1),
{
    let n = dir_norm_sq(v);
    let r = isqrt(n as u64);
    proof {
        assert(r <= 3_000_000_000) by (nonlinear_arith)
            requires
                r * r <= 8_000_000_000_000_000_000,
                r >= 0,
        ;
    }
    r as i64
}

/// One component of a normalization: `x * FP_SCALE / len`, truncated
/// toward zero.
fn scale_div(x: i64, len: i64) -> (r: i64)
    requires
        1 <= len <= 10_000_000,
        abs_i(x as int) <= 9_000_000,
    ensures
        r == tdiv(x * FP_SCALE, len as int),
        abs_i(r as int) == abs_i(x as int) * FP_SCALE / (len as int),
{
    let ux: u64 = if x >= 0 {
        x as u64
    } else {
        (-x) as u64
    };
    let uq: u64 = (ux * 1_000_000) / (len as u64);
    proof {
        assert(abs_i(x * FP_SCALE) == abs_i(x as int) * FP_SCALE && (x >= 0 ==> x * FP_SCALE >= 0)
            && (x < 0 ==> x * FP_SCALE < 0)) by (nonlinear_arith)
            requires
                FP_SCALE == 1_000_000,
        ;
        lemma_tdiv_abs(x * FP_SCALE, len as int);
        lemma_div_is_ordered(ux * 1_000_000, 9_000_000_000_000, len as int);
        lemma_div_pos_is_pos(ux * 1_000_000, len as int);
        assert(9_000_000_000_000 as int / (len as int) <= 9_000_000_000_000) by {
            lemma_div_is_ordered_by_denominator_one(9_000_000_000_000, len as int);
        }
    }
    if x >= 0 {
        uq as i64
    } else {
        -(uq as i64)
    }
}

/// Dividing by a divisor of at least one never increases a nonnegative
/// dividend.
proof fn lemma_div_is_ordered_by_denominator_one(x: int, d: int)
    requires
        0 <= x,
        1 <= d,
    ensures
        x / d <= x,
{
    lemma_fundamental_div_mod(x, d);
    lemma_mod_bound(x, d);
    lemma_div_pos_is_pos(x, d);
    assert(x == d * (x / d) + x % d);
    assert(d * (x / d) >= 1 * (x / d)) by (nonlinear_arith)
        requires
            d >= 1,
            x / d >= 0,
    ;
}

/// The squared length of a normalized vector lies within `UNIT_TOL_FP`
/// of `FP_SCALE` squared, provided the input was long enough for the grid
/// and short enough for the arithmetic.
proof fn lemma_normalize_unit(x: int, y: int, len: int, qx: int, qy: int)
    requires
        NORMALIZE_MIN_SQ <= x * x + y * y <= NORMALIZE_MAX_SQ,
        0 <= len,
        len * len <= x * x + y * y,
        (len + 1) * (len + 1) > x * x + y * y,
        qx == tdiv(x * FP_SCALE, len),
        qy == tdiv(y * FP_SCALE, len),
    ensures
        (FP_SCALE - 25) * (FP_SCALE - 25) <= qx * qx + qy * qy,
        qx * qx + qy * qy <= (FP_SCALE + 25) * (FP_SCALE + 25),
        abs_i(qx) <= FP_SCALE + 25,
        abs_i(qy) <= FP_SCALE + 25,
{
    let n = x * x + y * y;
    let s = FP_SCALE as int;
    assert(len >= 100_000) by (nonlinear_arith)
        requires
            (len + 1) * (len + 1) > 10_000_000_000,
            0 <= len,
    ;
    let ax = abs_i(x);
    let ay = abs_i(y);
    assert(ax * ax == x * x) by (nonlinear_arith)
        requires
            (x >= 0 && ax == x) || (x < 0 && ax == -x),
    ;
    assert(ay * ay == y * y) by (nonlinear_arith)
        requires
            (y >= 0 && ay == y) || (y < 0 && ay == -y),
    ;
    assert(ax <= 9_000_000) by (nonlinear_arith)
        requires
            ax * ax <= 64_000_000_000_000,
            0 <= ax,
    ;
    assert(ay <= 9_000_000) by (nonlinear_arith)
        requires
            ay * ay <= 64_000_000_000_000,
            0 <= ay,
    ;
    lemma_tdiv_abs(x * s, len);
    lemma_tdiv_abs(y * s, len);
    assert(abs_i(x * s) == ax * s && abs_i(y * s) == ay * s) by (nonlinear_arith)
        requires
            s == 1_000_000,
            ax == abs_i(x),
            ay == abs_i(y),
    ;
    let uqx = abs_i(qx);
    let uqy = abs_i(qy);
    assert(uqx == (ax * s) / len && uqy == (ay * s) / len);
    lemma_fundamental_div_mod(ax * s, len);
    lemma_mod_bound(ax * s, len);
    lemma_fundamental_div_mod(ay * s, len);
    lemma_mod_bound(ay * s, len);
    assert(uqx * len <= ax * s < (uqx + 1) * len) by (nonlinear_arith)
        requires
            ax * s == len * uqx + (ax * s) % len,
            0 <= (ax * s) % len < len,
    ;
    assert(uqy * len <= ay * s < (uqy + 1) * len) by (nonlinear_arith)
        requires
            ay * s == len * uqy + (ay * s) % len,
            0 <= (ay * s) % len < len,
    ;
    lemma_div_pos_is_pos(ax * s, len);
    lemma_div_pos_is_pos(ay * s, len);
    // Upper bound: the squared quotients scaled by len^2 sit below n * s^2,
    // and n is below (len + 1)^2.
    assert((uqx * uqx + uqy * uqy) * (len * len) <= n * (s * s)) by (nonlinear_arith)
        requires
            0 <= uqx,
            0 <= uqy,
            0 <= len,
            uqx * len <= ax * s,
            uqy * len <= ay * s,
            ax * ax + ay * ay == n,
            0 <= ax,
            0 <= ay,
            0 <= s,
    ;
    assert(n * (s * s) <= (s * s + 50 * s) * (len * len)) by (nonlinear_arith)
        requires
            n < (len + 1) * (len + 1),
            len >= 100_000,
            s == 1_000_000,
    ;
    assert(uqx * uqx + uqy * uqy <= (s + 25) * (s + 25)) by (nonlinear_arith)
        requires
            (uqx * uqx + uqy * uqy) * (len * len) <= (s * s + 50 * s) * (len * len),
            len >= 100_000,
            s == 1_000_000,
    ;
    assert(uqx <= s + 25 && uqy <= s + 25) by (nonlinear_arith)
        requires
            uqx * uqx + uqy * uqy <= (s + 25) * (s + 25),
            0 <= uqx,
            0 <= uqy,
            s == 1_000_000,
    ;
    // Lower bound: n * s^2 sits strictly below the squared upper brackets,
    // and len^2 is at most n.
    assert((ax * ax) * (s * s) < ((uqx + 1) * (uqx + 1)) * (len * len)) by (nonlinear_arith)
        requires
            0 <= ax * s,
            ax * s < (uqx + 1) * len,
    ;
    assert((ay * ay) * (s * s) < ((uqy + 1) * (uqy + 1)) * (len * len)) by (nonlinear_arith)
        requires
            0 <= ay * s,
            ay * s < (uqy + 1) * len,
    ;
    assert(n * (s * s) == (ax * ax) * (s * s) + (ay * ay) * (s * s)) by (nonlinear_arith)
        requires
            n == ax * ax + ay * ay,
    ;
    assert(((uqx + 1) * (uqx + 1) + (uqy + 1) * (uqy + 1)) * (len * len) == ((uqx + 1) * (uqx + 1))
        * (len * len) + ((uqy + 1) * (uqy + 1)) * (len * len)) by (nonlinear_arith);
    assert((len * len) * (s * s) <= n * (s * s)) by (nonlinear_arith)
        requires
            len * len <= n,
            0 <= s * s,
    ;
    assert((len * len) * (s * s) < ((uqx + 1) * (uqx + 1) + (uqy + 1) * (uqy + 1)) * (len * len));
    assert(s * s < (uqx + 1) * (uqx + 1) + (uqy + 1) * (uqy + 1)) by (nonlinear_arith)
        requires
            (len * len) * (s * s) < ((uqx + 1) * (uqx + 1) + (uqy + 1) * (uqy + 1)) * (len * len),
            0 < len,
    ;
    assert((s - 25) * (s - 25) <= uqx * uqx + uqy * uqy) by (nonlinear_arith)
        requires
            s * s < (uqx + 1) * (uqx + 1) + (uqy + 1) * (uqy + 1),
            uqx <= s + 25,
            uqy <= s + 25,
            0 <= uqx,
            0 <= uqy,
            s == 1_000_000,
    ;
    assert(qx * qx == uqx * uqx) by (nonlinear_arith)
        requires
            (qx >= 0 && uqx == qx) || (qx < 0 && uqx == -qx),
    ;
    assert(qy * qy == uqy * uqy) by (nonlinear_arith)
        requires
            (qy >= 0 && uqy == qy) || (qy < 0 && uqy == -qy),
    ;
}

/// Normalizes `v` given its rounded-down length, already computed.
pub fn vector_normalize_with_len(v: &Direction, len: i64) -> (r: Direction)
    requires
        NORMALIZE_MIN_SQ <= v.norm_sq() <= NORMALIZE_MAX_SQ,
        len == sqrt_floor(v.norm_sq()),
    ensures
        r == normalize_spec(*v),
        r.is_unit(),
{
    proof {
        lemma_sqrt_exists(v.norm_sq());
        assert(len * len <= v.norm_sq() < (len + 1) * (len + 1) && len >= 0);
        assert(len >= 100_000) by (nonlinear_arith)
            requires
                (len + 1) * (len + 1) > 10_000_000_000,
                0 <= len,
        ;
        assert(len <= 9_000_000) by (nonlinear_arith)
            requires
                len * len <= 64_000_000_000_000,
                0 <= len,
        ;
        assert(abs_i(v.x as int) <= 9_000_000 && abs_i(v.y as int) <= 9_000_000)
            by (nonlinear_arith)
            requires
                v.x * v.x + v.y * v.y <= 64_000_000_000_000,
        ;
    }
    let rx = scale_div(v.x, len);
    let ry = scale_div(v.y, len);
    proof {
        lemma_normalize_unit(
            v.x as int,
            v.y as int,
            len as int,
            tdiv(v.x * FP_SCALE, len as int),
            tdiv(v.y * FP_SCALE, len as int),
        );
    }
    Direction { x: rx, y: ry }
}

/// Every nonnegative value has a rounded-down square root.
proof fn lemma_sqrt_exists(n: int)
    requires
        0 <= n,
    ensures
        0 <= sqrt_floor(n),
        sqrt_floor(n) * sqrt_floor(n) <= n,
        (sqrt_floor(n) + 1) * (sqrt_floor(n) + 1) > n,
    decreases n,
{
    if n == 0 {
        assert(0 <= 0 && #[trigger] (0 * 0) <= 0 && (0 + 1) * (0 + 1) > 0);
    } else {
        lemma_sqrt_exists(n - 1);
        let p = sqrt_floor(n - 1);
        if (p + 1) * (p + 1) <= n {
            assert((p + 1) * (p + 1) <= n && ((p + 1) + 1) * ((p + 1) + 1) > n)
                by (nonlinear_arith)
                requires
                    0 <= p,
                    p * p <= n - 1,
                    (p + 1) * (p + 1) > n - 1,
                    (p + 1) * (p + 1) <= n,
            ;
            assert(0 <= p + 1 && #[trigger] ((p + 1) * (p + 1)) <= n && ((p + 1) + 1) * ((p + 1)
                + 1) > n);
        } else {
            assert(0 <= p && #[trigger] (p * p) <= n && (p + 1) * (p + 1) > n);
        }
    }
}

/// A product of bounded factors is bounded by the product of the bounds.
pub proof fn lemma_mul_le(a: int, b: int, amax: int, bmax: int)
    by (nonlinear_arith)
    requires
        -amax <= a <= amax,
        -bmax <= b <= bmax,
        0 <= amax,
        0 <= bmax,
    ensures
        -(amax * bmax) <= a * b <= amax * bmax,
{
}

/// A unit direction has components no larger than `FP_SCALE` plus the
/// tolerance.
pub proof fn lemma_unit_component_bound(d: Direction)
    requires
        d.is_unit(),
    ensures
        abs_i(d.x as int) <= FP_SCALE + 25,
        abs_i(d.y as int) <= FP_SCALE + 25,
{
    assert((FP_SCALE + UNIT_TOL_FP) * (FP_SCALE + UNIT_TOL_FP) == 1_000_025 * 1_000_025);
    assert(-1_000_025 <= d.x <= 1_000_025 && -1_000_025 <= d.y <= 1_000_025) by (nonlinear_arith)
        requires
            d.x * d.x + d.y * d.y <= 1_000_025 * 1_000_025,
    ;
}

/// A unit direction is long enough and short enough to normalize.
pub proof fn lemma_unit_norm_in_range(d: Direction)
    requires
        d.is_unit(),
    ensures
        NORMALIZE_MIN_SQ <= d.norm_sq() <= NORMALIZE_MAX_SQ,
{
    assert((FP_SCALE - UNIT_TOL_FP) * (FP_SCALE - UNIT_TOL_FP) == 999_975 * 999_975);
    assert((FP_SCALE + UNIT_TOL_FP) * (FP_SCALE + UNIT_TOL_FP) == 1_000_025 * 1_000_025);
}

/// A sum of at most two unit directions is short enough to normalize.
pub proof fn lemma_sum_norm_in_range(s: Direction)
    requires
        abs_i(s.x as int) <= 2_000_050,
        abs_i(s.y as int) <= 2_000_050,
    ensures
        0 <= s.norm_sq() <= NORMALIZE_MAX_SQ,
{
    assert(0 <= s.x * s.x <= 2_000_050 * 2_000_050) by (nonlinear_arith)
        requires
            -2_000_050 <= s.x <= 2_000_050,
    ;
    assert(0 <= s.y * s.y <= 2_000_050 * 2_000_050) by (nonlinear_arith)
        requires
            -2_000_050 <= s.y <= 2_000_050,
    ;
}

/// Normalizes `v` to unit length on the fixed-point grid.
pub fn vector_normalize(v: &Direction) -> (r: Direction)
    requires
        NORMALIZE_MIN_SQ <= v.norm_sq() <= NORMALIZE_MAX_SQ,
    ensures
        r == normalize_spec(*v),
        r.is_unit(),
{
    proof {
        assert(abs_i(v.x as int) <= 9_000_000 && abs_i(v.y as int) <= 9_000_000)
            by (nonlinear_arith)
            requires
                v.x * v.x + v.y * v.y <= 64_000_000_000_000,
        ;
    }
    let len = vector_length(v);
    vector_normalize_with_len(v, len)
}

} // verus!
