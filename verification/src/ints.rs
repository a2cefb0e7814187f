//! Integer arithmetic shared by the filters: division that truncates towards zero, and clamping.

use vstd::prelude::*;

verus! {

/// The quotient of `a` by `b` rounded towards zero.
pub open spec fn trunc_div(a: int, b: int) -> int
    recommends
        b != 0,
{
    if a >= 0 {
        a / b
    } else {
        -((-a) / b)
    }
}

/// `v` held between `lo` and `hi`.
pub open spec fn clamp_int(v: int, lo: int, hi: int) -> int {
    if v < lo {
        lo
    } else if v > hi {
        hi
    } else {
        v
    }
}

/// Whether an `i32` can hold `v`.
pub open spec fn fits_i32(v: int) -> bool {
    i32::MIN <= v <= i32::MAX
}

/// `a / b`, truncating.
pub fn div_i32(a: i32, b: i32) -> (r: i32)
    requires
        b != 0,
        fits_i32(trunc_div(a as int, b as int)),
    ensures
        r == trunc_div(a as int, b as int),
{
    proof {
        let m = if a >= 0 { a as int } else { -a as int };
        let q = b as int;
        assert(-m <= m / q <= m) by (nonlinear_arith)
            requires
                m >= 0,
                q != 0,
        ;
        if m == 0x8000_0000 {
            assert(-m < m / q < m || q == 1 || q == -1) by (nonlinear_arith)
                requires
                    m == 0x8000_0000,
                    q != 0,
            ;
        }
        if q == -1 {
            assert(m / q == -m) by (nonlinear_arith)
                requires
                    q == -1,
            ;
        }
    }
    a / b
}

/// `v` held between `lo` and `hi`.
pub fn clamp_i32(v: i32, lo: i32, hi: i32) -> (r: i32)
    requires
        lo <= hi,
    ensures
        r == clamp_int(v as int, lo as int, hi as int),
{
    if v < lo {
        lo
    } else if v > hi {
        hi
    } else {
        v
    }
}

/// `v` held between `lo` and `hi`.
pub fn clamp_u32(v: u32, lo: u32, hi: u32) -> (r: u32)
    requires
        lo <= hi,
    ensures
        r == clamp_int(v as int, lo as int, hi as int),
{
    if v < lo {
        lo
    } else if v > hi {
        hi
    } else {
        v
    }
}

/// Truncation takes the quotient next to the exact one on the side of zero: over a positive divisor,
/// the quotient times the divisor falls short of the dividend by less than the divisor, and never
/// on the other side of zero.
pub proof fn trunc_div_falls_short(a: int, b: int)
    requires
        b > 0,
    ensures
        a >= 0 ==> 0 <= trunc_div(a, b) * b <= a < trunc_div(a, b) * b + b,
        a <= 0 ==> trunc_div(a, b) * b - b < a <= trunc_div(a, b) * b <= 0,
{
    let m = if a >= 0 { a } else { -a };
    vstd::arithmetic::div_mod::lemma_fundamental_div_mod(m, b);
    vstd::arithmetic::div_mod::lemma_div_pos_is_pos(m, b);
    let q = m / b;
    assert(b * q == q * b && (-q) * b == -(q * b) && 0 <= q * b) by (nonlinear_arith)
        requires
            q >= 0,
            b > 0,
    ;
    if a == 0 {
        assert(q == 0) by {
            vstd::arithmetic::div_mod::lemma_div_basics(b);
        }
    }
}

/// Truncation over a negative divisor is that over the positive one, turned over.
pub proof fn trunc_div_turns_over(a: int, b: int)
    requires
        b > 0,
    ensures
        trunc_div(a, -b) == -trunc_div(a, b),
{
    let m = if a >= 0 { a } else { -a };
    assert(m / (-b) == -(m / b)) by (nonlinear_arith)
        requires
            m >= 0,
            b > 0,
    ;
}

/// Whether `r` is `v` held between `lo` and `hi`: itself between them, else the nearer bound.
pub open spec fn is_held(v: int, r: int, lo: int, hi: int) -> bool {
    &&& lo <= r <= hi
    &&& lo <= v <= hi ==> r == v
    &&& v < lo ==> r == lo
    &&& v > hi ==> r == hi
}

/// A value held between two bounds lies between them, is itself where it did so before, and is the
/// nearer bound elsewhere.
pub proof fn holding_takes_the_nearest(v: int, lo: int, hi: int)
    requires
        lo <= hi,
    ensures
        lo <= clamp_int(v, lo, hi) <= hi,
        lo <= v <= hi ==> clamp_int(v, lo, hi) == v,
        v < lo ==> clamp_int(v, lo, hi) == lo,
        v > hi ==> clamp_int(v, lo, hi) == hi,
{
}

/// A non-negative dividend over a positive divisor truncates to a quotient between zero and the
/// dividend over any smaller divisor; in particular it never exceeds `bound` when the dividend is
/// at most `bound` times the divisor.
pub proof fn trunc_div_bounds(a: int, b: int, bound: int)
    requires
        b > 0,
        0 <= a <= bound * b,
    ensures
        0 <= trunc_div(a, b) <= bound,
{
    vstd::arithmetic::div_mod::lemma_div_pos_is_pos(a, b);
    vstd::arithmetic::div_mod::lemma_fundamental_div_mod(a, b);
    vstd::arithmetic::div_mod::lemma_mod_bound(a, b);
    assert(a / b <= bound) by (nonlinear_arith)
        requires
            a == b * (a / b) + a % b,
            0 <= a % b,
            a <= bound * b,
            b > 0,
    ;
}

/// Truncation is symmetric: negating the dividend negates the quotient.
pub proof fn trunc_div_neg(a: int, b: int)
    requires
        b > 0,
    ensures
        trunc_div(-a, b) == -trunc_div(a, b),
{
    if a == 0 {
        assert(0int / b == 0) by {
            vstd::arithmetic::div_mod::lemma_div_basics(b);
        }
    }
}

} // verus!
