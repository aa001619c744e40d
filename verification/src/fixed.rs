//! Fixed-point arithmetic on thousandth units.
//!
//! World quantities are `i64` values scaled by 1000. Multiplying two of
//! them needs one division by 1000, truncated toward zero; this module
//! proves that the executable truncation matches its mathematical
//! definition, so every physics contract can be stated over `int`.

use vstd::prelude::*;

use crate::protocol::UNIT;

verus! {

/// Largest magnitude accepted for the scaled operand of [`scale_mul`].
pub const SCALE_ARG_LIMIT: i64 = 2_000_000_000_000;

/// Largest magnitude accepted for the factor operand of [`scale_mul`].
pub const SCALE_FACTOR_LIMIT: i64 = 1_000_000;

/// `v` clamped into `[lo, hi]`.
pub open spec fn clamp_spec(v: int, lo: int, hi: int) -> int {
    if v < lo {
        lo
    } else if v > hi {
        hi
    } else {
        v
    }
}

/// The product `a * b` scaled back down by one unit, truncated toward zero.
pub open spec fn scale_spec(a: int, b: int) -> int {
    if a * b >= 0 {
        (a * b) / (UNIT as int)
    } else {
        -((-(a * b)) / (UNIT as int))
    }
}

/// `v` clamped into `[lo, hi]`.
pub fn clamp_i64(v: i64, lo: i64, hi: i64) -> (r: i64)
    requires
        lo <= hi,
    ensures
        r == clamp_spec(v as int, lo as int, hi as int),
{
    if v < lo {
        lo
    } else if v > hi {
        hi
    } else {
        v
    }
}

/// Fixed-point product of a scaled value `a` and a factor `b`, truncated
/// toward zero, exactly as [`scale_spec`] states.
pub fn scale_mul(a: i64, b: i64) -> (r: i64)
    requires
        -SCALE_ARG_LIMIT <= a <= SCALE_ARG_LIMIT,
        -SCALE_FACTOR_LIMIT <= b <= SCALE_FACTOR_LIMIT,
    ensures
        r == scale_spec(a as int, b as int),
{
    let ghost ai: int = a as int;
    let ghost bi: int = b as int;
    let neg: bool = (a < 0) != (b < 0);
    let aa: u64 = if a < 0 {
        (-a) as u64
    } else {
        a as u64
    };
    let bb: u64 = if b < 0 {
        (-b) as u64
    } else {
        b as u64
    };
    proof {
        assert(aa * bb <= 2_000_000_000_000_000_000) by (nonlinear_arith)
            requires
                aa <= 2_000_000_000_000,
                bb <= 1_000_000,
        ;
        assert(aa * bb == if ai * bi >= 0 {
            ai * bi
        } else {
            -(ai * bi)
        }) by (nonlinear_arith)
            requires
                aa == if ai >= 0 { ai } else { -ai },
                bb == if bi >= 0 { bi } else { -bi },
        ;
        assert((ai * bi >= 0 && ai != 0 && bi != 0) ==> (ai < 0) == (bi < 0)) by (nonlinear_arith);
        assert((ai * bi < 0) ==> (ai < 0) != (bi < 0)) by (nonlinear_arith);
        assert(ai == 0 || bi == 0 ==> ai * bi == 0) by (nonlinear_arith);
    }
    let p: u64 = aa * bb;
    let q: u64 = p / 1000;
    assert(q <= 2_000_000_000_000_000);
    if neg {
        -(q as i64)
    } else {
        q as i64
    }
}

/// With a nonnegative factor, a scaled product keeps the sign of the
/// scaled operand.
pub proof fn lemma_scale_spec_sign(a: int, b: int)
    requires
        0 <= b,
    ensures
        a <= 0 ==> scale_spec(a, b) <= 0,
        a >= 0 ==> scale_spec(a, b) >= 0,
{
    assert(a <= 0 ==> a * b <= 0) by (nonlinear_arith)
        requires
            0 <= b,
    ;
    assert(a >= 0 ==> a * b >= 0) by (nonlinear_arith)
        requires
            0 <= b,
    ;
    if a * b >= 0 {
        vstd::arithmetic::div_mod::lemma_div_is_ordered(0, a * b, UNIT as int);
    } else {
        vstd::arithmetic::div_mod::lemma_div_is_ordered(0, -(a * b), UNIT as int);
    }
}

/// A scaled product is bounded by the scaled product of the operand bounds.
pub proof fn lemma_scale_spec_bound(a: int, b: int, m: int, n: int)
    requires
        -m <= a <= m,
        -n <= b <= n,
        0 <= m,
        0 <= n,
    ensures
        -((m * n) / (UNIT as int)) <= scale_spec(a, b) <= (m * n) / (UNIT as int),
{
    assert(-(m * n) <= a * b <= m * n) by (nonlinear_arith)
        requires
            -m <= a <= m,
            -n <= b <= n,
            0 <= m,
            0 <= n,
    ;
    if a * b >= 0 {
        vstd::arithmetic::div_mod::lemma_div_is_ordered(a * b, m * n, UNIT as int);
        assert(scale_spec(a, b) >= 0) by {
            vstd::arithmetic::div_mod::lemma_div_is_ordered(0, a * b, UNIT as int);
        }
    } else {
        vstd::arithmetic::div_mod::lemma_div_is_ordered(-(a * b), m * n, UNIT as int);
        vstd::arithmetic::div_mod::lemma_div_is_ordered(0, -(a * b), UNIT as int);
    }
}

} // verus!
