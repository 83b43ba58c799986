//! Small integer helpers shared by the simulation: absolute value, clamping,
//! an integer square root, and a rounding division.

use vstd::prelude::*;

verus! {

/// Absolute value of a mathematical integer.
pub open spec fn abs_i(v: int) -> int {
    if v < 0 {
        -v
    } else {
        v
    }
}

/// `v` forced into the closed interval `[lo, hi]`.
pub open spec fn clamp_spec(v: int, lo: int, hi: int) -> int {
    if v < lo {
        lo
    } else if v > hi {
        hi
    } else {
        v
    }
}

/// Clamp `v` into `[lo, hi]`; an attempted move past a boundary stops at it.
pub fn clamp_i64(v: i64, lo: i64, hi: i64) -> (r: i64)
    requires
        lo <= hi,
    ensures
        r == clamp_spec(v as int, lo as int, hi as int),
        lo <= r <= hi,
{
    if v < lo {
        lo
    } else if v > hi {
        hi
    } else {
        v
    }
}

/// `r` is the square root of `n` rounded down.
pub open spec fn is_sqrt_floor(n: int, r: int) -> bool {
    0 <= r && r * r <= n < (r + 1) * (r + 1)
}

/// The square root of `n` rounded down, as a total spec-level function.
pub open spec fn sqrt_floor(n: int) -> int {
    choose|r: int| is_sqrt_floor(n, r)
}

/// Any witness of `is_sqrt_floor` is the one value `sqrt_floor` denotes.
pub proof fn lemma_sqrt_floor_unique(n: int, r: int)
    requires
        is_sqrt_floor(n, r),
    ensures
        r == sqrt_floor(n),
{
    assert(exists|x: int| is_sqrt_floor(n, x));
    let w = sqrt_floor(n);
    assert(is_sqrt_floor(n, w));
    if r < w {
        assert((r + 1) * (r + 1) <= w * w) by (nonlinear_arith)
            requires
                0 <= r,
                r + 1 <= w,
        ;
        assert(false);
    }
    if w < r {
        assert((w + 1) * (w + 1) <= r * r) by (nonlinear_arith)
            requires
                0 <= w,
                w + 1 <= r,
        ;
        assert(false);
    }
}

/// Squaring is monotone on non-negative integers, so a bound on the square
/// bounds the root.
pub proof fn lemma_root_le(a: int, n: int)
    requires
        0 <= a,
        a * a <= n,
        is_sqrt_floor(n, sqrt_floor(n)),
    ensures
        a <= sqrt_floor(n),
{
    let w = sqrt_floor(n);
    if w < a {
        assert((w + 1) * (w + 1) <= a * a) by (nonlinear_arith)
            requires
                0 <= w,
                w + 1 <= a,
        ;
        assert(false);
    }
}

/// Integer square root rounded down, by bisection.
pub fn isqrt(n: u64) -> (r: u64)
    ensures
        is_sqrt_floor(n as int, r as int),
        r == sqrt_floor(n as int),
        r < 0x1_0000_0000,
{
    let mut lo: u64 = 0;
    let mut hi: u64 = 0x1_0000_0000;
    while lo + 1 < hi
        invariant
            lo < hi <= 0x1_0000_0000,
            (lo as int) * (lo as int) <= n as int,
            (n as int) < (hi as int) * (hi as int),
        decreases hi - lo,
    {
        let mid = lo + (hi - lo) / 2;
        assert(mid * mid <= 0xffff_ffff * 0xffff_ffff) by (nonlinear_arith)
            requires
                mid <= 0xffff_ffffu64,
        ;
        if mid * mid <= n {
            lo = mid;
        } else {
            hi = mid;
        }
    }
    proof {
        lemma_sqrt_floor_unique(n as int, lo as int);
    }
    lo
}

/// `a / b` rounded to the nearest integer (ties rounded up).
pub open spec fn div_round(a: int, b: int) -> int {
    (a + b / 2) / b
}

/// Rounding division on non-negative operands.
pub fn div_round_u64(a: u64, b: u64) -> (r: u64)
    requires
        1 <= b,
        a + b / 2 <= u64::MAX,
    ensures
        r == div_round(a as int, b as int),
{
    (a + b / 2) / b
}

/// The rounded quotient of a product `c * a` by `b` is at most `c` when
/// `a <= b`; this caps a rescaled vector component by the full scale.
pub proof fn lemma_div_round_scale_le(c: int, a: int, b: int)
    requires
        0 <= c,
        0 <= a <= b,
        1 <= b,
    ensures
        0 <= div_round(c * a, b) <= c,
{
    let num = c * a + b / 2;
    assert(c * a <= c * b) by (nonlinear_arith)
        requires
            0 <= c,
            a <= b,
    ;
    assert(0 <= c * a) by (nonlinear_arith)
        requires
            0 <= c,
            0 <= a,
    ;
    assert(b / 2 <= b - 1);
    assert(num <= c * b + (b - 1));
    vstd::arithmetic::div_mod::lemma_fundamental_div_mod_converse(c * b + (b - 1), b, c, b - 1);
    assert((c * b + (b - 1)) / b == c);
    vstd::arithmetic::div_mod::lemma_div_is_ordered(num, c * b + (b - 1), b);
    vstd::arithmetic::div_mod::lemma_div_pos_is_pos(num, b);
}

} // verus!
