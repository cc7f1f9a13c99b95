//! Signed 64-bit fixed-point scalars and the small arithmetic kernel the rest
//! of the crate builds on. One world unit is `SCALE` sub-units; all rounding
//! is truncation toward zero, stated exactly by `tdiv`.

use vstd::arithmetic::div_mod::{
    lemma_div_is_ordered, lemma_div_multiples_vanish_fancy, lemma_div_nonincreasing,
    lemma_div_pos_is_pos,
};
use vstd::prelude::*;

verus! {

/// Sub-units per world unit.
pub const SCALE: i64 = 1_000_000;

/// Half a unit; the rounding threshold of `rnd`.
pub const HALF_SCALE: i64 = 500_000;

/// Absolute value of a mathematical integer.
pub open spec fn abs_s(a: int) -> int {
    if a >= 0 {
        a
    } else {
        -a
    }
}

/// Division truncating toward zero (the rounding of the executable helpers),
/// for a positive divisor.
pub open spec fn tdiv(a: int, b: int) -> int {
    if a >= 0 {
        a / b
    } else {
        -((-a) / b)
    }
}

/// Nearest whole unit of a fixed-point value; halves round away from zero.
pub open spec fn rnd(a: int) -> int {
    if a >= 0 {
        (a + HALF_SCALE) / (SCALE as int)
    } else {
        -((-a + HALF_SCALE) / (SCALE as int))
    }
}

/// Fixed-point product: `a * b` rescaled back to sub-units.
pub open spec fn fp_mul_s(a: int, b: int) -> int {
    tdiv(a * b, SCALE as int)
}

/// `v` forced into `[lo, hi]`.
pub open spec fn clamp_s(v: int, lo: int, hi: int) -> int {
    if v < lo {
        lo
    } else if v > hi {
        hi
    } else {
        v
    }
}

/// A fixed-point vector: x right, y up, z forward, in `SCALE` sub-units.
#[derive(Debug, Clone, Copy, PartialEq, Eq, Structural)]
pub struct Vec3Fp {
    pub x: i64,
    pub y: i64,
    pub z: i64,
}

/// Truncating division `tdiv` is never larger in magnitude than the exact
/// quotient: a bound on the numerator gives a bound on the result.
pub proof fn lemma_tdiv_bound(a: int, b: int, m: int)
    requires
        0 < b,
        0 <= m,
        abs_s(a) <= b * m,
    ensures
        abs_s(tdiv(a, b)) <= m,
{
    if a >= 0 {
        lemma_div_is_ordered(a, b * m, b);
        assert((b * m) / b == m) by (nonlinear_arith)
            requires 0 < b;
        lemma_div_pos_is_pos(a, b);
    } else {
        lemma_div_is_ordered(-a, b * m, b);
        assert((b * m) / b == m) by (nonlinear_arith)
            requires 0 < b;
        lemma_div_pos_is_pos(-a, b);
    }
}

/// Truncating division leaves a remainder smaller than the divisor:
/// `a == b * tdiv(a, b) + e` with `|e| < b`.
pub proof fn lemma_tdiv_decomp(a: int, b: int)
    requires
        0 < b,
    ensures
        abs_s(a - b * tdiv(a, b)) < b,
{
    if a >= 0 {
        vstd::arithmetic::div_mod::lemma_fundamental_div_mod(a, b);
        vstd::arithmetic::div_mod::lemma_mod_bound(a, b);
    } else {
        vstd::arithmetic::div_mod::lemma_fundamental_div_mod(-a, b);
        vstd::arithmetic::div_mod::lemma_mod_bound(-a, b);
        assert(b * (-((-a) / b)) == -(b * ((-a) / b))) by (nonlinear_arith);
    }
}

/// Rounding a point strictly within half a unit of a lattice value recovers
/// that value exactly.
pub proof fn lemma_rnd_near(u: int, d: int)
    requires
        -(HALF_SCALE as int) < d < HALF_SCALE as int,
    ensures
        rnd(u * (SCALE as int) + d) == u,
{
    let s = SCALE as int;
    let a = u * s + d;
    if a >= 0 {
        assert(a + HALF_SCALE == s * u + (d + HALF_SCALE));
        lemma_div_multiples_vanish_fancy(u, d + HALF_SCALE, s);
    } else {
        assert(-a + HALF_SCALE == s * (-u) + (HALF_SCALE - d));
        lemma_div_multiples_vanish_fancy(-u, HALF_SCALE - d, s);
    }
}

/// Truncating division of an `i128` by a positive divisor.
pub fn tdiv_i128(a: i128, b: i128) -> (r: i128)
    requires
        0 < b,
        -(i128::MAX as int) <= a,
    ensures
        r as int == tdiv(a as int, b as int),
{
    if a >= 0 {
        let q: u128 = (a as u128) / (b as u128);
        proof {
            lemma_div_nonincreasing(a as int, b as int);
            lemma_div_pos_is_pos(a as int, b as int);
        }
        q as i128
    } else {
        let n: i128 = -a;
        let q: u128 = (n as u128) / (b as u128);
        proof {
            lemma_div_nonincreasing(n as int, b as int);
            lemma_div_pos_is_pos(n as int, b as int);
        }
        -(q as i128)
    }
}

/// `tdiv(a * b, d)` without intermediate overflow.
pub fn mul_div(a: i64, b: i64, d: i64) -> (r: i64)
    requires
        0 < d,
        -(i64::MAX as int) <= tdiv(a as int * b as int, d as int) <= i64::MAX as int,
    ensures
        r as int == tdiv(a as int * b as int, d as int),
{
    proof {
        assert(-(i128::MAX as int) <= a as int * b as int <= i128::MAX as int)
            by (nonlinear_arith)
            requires
                i64::MIN as int <= a as int <= i64::MAX as int,
                i64::MIN as int <= b as int <= i64::MAX as int,
        ;
    }
    let p: i128 = (a as i128) * (b as i128);
    let q: i128 = tdiv_i128(p, d as i128);
    q as i64
}

/// Fixed-point multiply: `tdiv(a * b, SCALE)`.
pub fn fp_mul(a: i64, b: i64) -> (r: i64)
    requires
        -(i64::MAX as int) <= fp_mul_s(a as int, b as int) <= i64::MAX as int,
    ensures
        r as int == fp_mul_s(a as int, b as int),
{
    mul_div(a, b, SCALE)
}

/// Nearest whole unit of a fixed-point value; halves round away from zero.
pub fn round_unit(a: i64) -> (r: i64)
    requires
        -(i64::MAX as int) <= a as int,
    ensures
        r as int == rnd(a as int),
{
    if a >= 0 {
        let q: u64 = ((a as u64) + (HALF_SCALE as u64)) / (SCALE as u64);
        proof {
            lemma_div_nonincreasing(a as int + HALF_SCALE as int, SCALE as int);
            lemma_div_pos_is_pos(a as int + HALF_SCALE as int, SCALE as int);
        }
        q as i64
    } else {
        let n: i64 = -a;
        let q: u64 = ((n as u64) + (HALF_SCALE as u64)) / (SCALE as u64);
        proof {
            lemma_div_nonincreasing(n as int + HALF_SCALE as int, SCALE as int);
            lemma_div_pos_is_pos(n as int + HALF_SCALE as int, SCALE as int);
        }
        -(q as i64)
    }
}

/// Absolute value.
pub fn abs64(a: i64) -> (r: i64)
    requires
        -(i64::MAX as int) <= a as int,
    ensures
        r as int == abs_s(a as int),
{
    if a >= 0 {
        a
    } else {
        -a
    }
}

/// `v` forced into `[lo, hi]`.
pub fn clamp64(v: i64, lo: i64, hi: i64) -> (r: i64)
    requires
        lo <= hi,
    ensures
        r as int == clamp_s(v as int, lo as int, hi as int),
{
    if v < lo {
        lo
    } else if v > hi {
        hi
    } else {
        v
    }
}

} // verus!
