//! Fixed-point scalars and the arithmetic helpers the pipeline is built on.
//!
//! Every coordinate, depth and matrix entry in this crate is an `i64`
//! carrying sixteen fractional bits: the value `v` stands for the rational
//! `v / FX_ONE`. Products are taken in `i128`, so they are exact, and are
//! brought back to scale with a division that rounds toward zero.

use vstd::prelude::*;

verus! {

use vstd::arithmetic::div_mod::lemma_div_nonincreasing;
use vstd::arithmetic::div_mod::lemma_div_pos_is_pos;
use vstd::arithmetic::div_mod::lemma_div_is_ordered;
use vstd::arithmetic::div_mod::lemma_div_multiples_vanish;

/// One unit of the fixed-point scale: sixteen fractional bits.
pub const FX_ONE: i64 = 65536;

/// Largest magnitude a well-formed coordinate or matrix entry may have.
/// With this bound a four-term row-by-column sum of products stays well
/// inside `i128`, and an interpolated attribute stays inside `i64`.
pub const WORLD_LIM: i64 = 0x100_0000_0000_0000;

/// Division rounding toward zero (the rounding of the executable code),
/// stated over mathematical integers. Meaningful for positive divisors.
pub open spec fn tdiv(a: int, b: int) -> int
    recommends
        b > 0,
{
    if a >= 0 {
        a / b
    } else {
        -((-a) / b)
    }
}

/// Division rounding toward zero by a nonzero divisor of either sign,
/// normalized to a positive divisor.
pub open spec fn tdiv_any(a: int, b: int) -> int
    recommends
        b != 0,
{
    if b > 0 {
        tdiv(a, b)
    } else {
        tdiv(-a, -b)
    }
}

/// A quotient rounded toward zero never grows in magnitude, and keeps the
/// sign of the dividend.
pub proof fn lemma_tdiv_bounds(a: int, b: int)
    requires
        b > 0,
    ensures
        a >= 0 ==> 0 <= tdiv(a, b) <= a,
        a < 0 ==> a <= tdiv(a, b) <= 0,
{
    if a >= 0 {
        lemma_div_pos_is_pos(a, b);
        lemma_div_nonincreasing(a, b);
    } else {
        lemma_div_pos_is_pos(-a, b);
        lemma_div_nonincreasing(-a, b);
    }
}

/// If the dividend is bounded by `k` multiples of the divisor, the quotient
/// rounded toward zero is bounded by `k`.
pub proof fn lemma_tdiv_le(num: int, b: int, k: int)
    requires
        b > 0,
        k >= 0,
        -(k * b) <= num <= k * b,
    ensures
        -k <= tdiv(num, b) <= k,
{
    lemma_div_multiples_vanish(k, b);
    assert(b * k == k * b) by (nonlinear_arith);
    if num >= 0 {
        lemma_div_pos_is_pos(num, b);
        lemma_div_is_ordered(num, k * b, b);
    } else {
        lemma_div_pos_is_pos(-num, b);
        lemma_div_is_ordered(-num, k * b, b);
    }
}

/// A product of bounded factors is bounded by the product of the bounds.
pub proof fn lemma_mul_bound(a: int, b: int, aa: int, bb: int)
    by (nonlinear_arith)
    requires
        -aa <= a <= aa,
        -bb <= b <= bb,
    ensures
        -(aa * bb) <= a * b <= aa * bb,
{
}

/// The exact widening product of two fixed-point scalars.
#[inline]
pub fn mul_wide(a: i64, b: i64) -> (r: i128)
    ensures
        r == a * b,
{
    proof {
        assert(-0x8000_0000_0000_0000_0000_0000_0000_0000int <= (a as int) * (b as int)
            < 0x8000_0000_0000_0000_0000_0000_0000_0000int) by (nonlinear_arith);
    }
    (a as i128) * (b as i128)
}

/// Clamping a value into an interval, stated over mathematical integers.
pub open spec fn clamp_s(v: int, lo: int, hi: int) -> int {
    if v < lo {
        lo
    } else if v > hi {
        hi
    } else {
        v
    }
}

/// Clamping of a wide intermediate back into `i64` bounds chosen by the
/// caller.
#[inline]
pub fn clamp128(v: i128, lo: i64, hi: i64) -> (r: i64)
    requires
        lo <= hi,
    ensures
        r == clamp_s(v as int, lo as int, hi as int),
{
    if v < lo as i128 {
        lo
    } else if v > hi as i128 {
        hi
    } else {
        v as i64
    }
}

/// The integer square root scanned downward from a starting bound.
pub open spec fn isqrt_rec(n: int, b: int) -> int
    decreases b,
{
    if b <= 0 {
        0
    } else if b * b <= n {
        b
    } else {
        isqrt_rec(n, b - 1)
    }
}

/// The integer square root: the largest `r` with `r * r <= n`.
pub open spec fn isqrt_s(n: int) -> int {
    isqrt_rec(n, n)
}

proof fn lemma_isqrt_rec_pins(n: int, b: int, r: int)
    requires
        0 <= r <= b,
        r * r <= n,
        n < (r + 1) * (r + 1),
    ensures
        isqrt_rec(n, b) == r,
    decreases b,
{
    if b > r {
        assert((r + 1) * (r + 1) <= b * b) by (nonlinear_arith)
            requires
                1 <= r + 1 <= b,
        ;
        lemma_isqrt_rec_pins(n, b - 1, r);
    }
}

/// Any `r` in the floor-square-root position is the value of `isqrt_s`.
pub proof fn lemma_isqrt_pins(n: int, r: int)
    requires
        0 <= r,
        r * r <= n,
        n < (r + 1) * (r + 1),
    ensures
        isqrt_s(n) == r,
{
    assert(r <= n) by (nonlinear_arith)
        requires
            0 <= r,
            r * r <= n,
    ;
    lemma_isqrt_rec_pins(n, n, r);
}

/// For a nonnegative argument, `isqrt_s` really is the floor square root.
pub proof fn lemma_isqrt_props(n: int)
    requires
        n >= 0,
    ensures
        0 <= isqrt_s(n),
        isqrt_s(n) * isqrt_s(n) <= n,
        n < (isqrt_s(n) + 1) * (isqrt_s(n) + 1),
    decreases n,
{
    if n == 0 {
        lemma_isqrt_pins(0, 0);
    } else {
        lemma_isqrt_props(n - 1);
        let r = isqrt_s(n - 1);
        if (r + 1) * (r + 1) <= n {
            assert(n < (r + 2) * (r + 2)) by (nonlinear_arith)
                requires
                    0 <= r,
                    n - 1 < (r + 1) * (r + 1),
            ;
            lemma_isqrt_pins(n, r + 1);
        } else {
            lemma_isqrt_pins(n, r);
        }
    }
}

/// The executable integer square root, by bisection over the wide range.
pub fn isqrt128(n: u128) -> (r: u128)
    requires
        n < 0x4000_0000_0000_0000_0000_0000_0000_0000,
    ensures
        r == isqrt_s(n as int),
        r * r <= n < (r + 1) * (r + 1),
{
    let mut lo: u128 = 0;
    let mut hi: u128 = 0x8000_0000_0000_0000;
    proof {
        assert(hi * hi == 0x4000_0000_0000_0000_0000_0000_0000_0000int) by (nonlinear_arith)
            requires
                hi == 0x8000_0000_0000_0000,
        ;
    }
    while lo + 1 < hi
        invariant
            lo < hi,
            hi <= 0x8000_0000_0000_0000,
            lo * lo <= n,
            (n as int) < hi * hi,
        decreases hi - lo,
    {
        let mid: u128 = lo + (hi - lo) / 2;
        proof {
            assert(mid * mid < 0x8000_0000_0000_0000_0000_0000_0000_0000int
                && mid * mid <= 0xffff_ffff_ffff_ffff_ffff_ffff_ffff_ffffint) by (nonlinear_arith)
                requires
                    mid < 0x8000_0000_0000_0000u128,
            ;
        }
        if mid * mid <= n {
            lo = mid;
        } else {
            hi = mid;
        }
    }
    proof {
        lemma_isqrt_pins(n as int, lo as int);
    }
    lo
}

} // verus!
