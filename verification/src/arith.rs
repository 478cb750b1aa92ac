//! Integer helpers used by the specifications of the other modules.

use vstd::prelude::*;

verus! {

/// The absolute value of an integer.
pub open spec fn abs_int(x: int) -> int {
    if x < 0 { -x } else { x }
}

/// The sign of an integer: -1, 0 or 1.
pub open spec fn sign_int(x: int) -> int {
    if x > 0 { 1 } else if x < 0 { -1 } else { 0 }
}

/// `x` brought into the range `lo..=hi` (for `lo <= hi`).
pub open spec fn clamp_int(x: int, lo: int, hi: int) -> int {
    if x < lo { lo } else if x > hi { hi } else { x }
}

/// Division that rounds towards zero, as Rust's integer division does.
pub open spec fn trunc_div(x: int, d: int) -> int
    recommends
        d > 0,
{
    if x >= 0 { x / d } else { -((-x) / d) }
}

/// `value` brought into the range `lo..=hi`.
pub fn clamp_i32(value: i32, lo: i32, hi: i32) -> (clamped: i32)
    requires
        lo <= hi,
    ensures
        clamped == clamp_int(value as int, lo as int, hi as int),
{
    if value < lo {
        lo
    } else if value > hi {
        hi
    } else {
        value
    }
}

/// Clamping keeps a value inside the range and moves one outside it to the
/// nearer bound.
pub proof fn lemma_clamp_int(x: int, lo: int, hi: int)
    requires
        lo <= hi,
    ensures
        lo <= x <= hi ==> clamp_int(x, lo, hi) == x,
        x < lo ==> clamp_int(x, lo, hi) == lo,
        x > hi ==> clamp_int(x, lo, hi) == hi,
{
}

/// Division towards zero: the quotient times the divisor is within one
/// divisor of the dividend, on the dividend's side of zero and no farther
/// from zero than it.
pub proof fn lemma_trunc_div(x: int, d: int)
    requires
        d > 0,
    ensures
        x >= 0 ==> 0 <= x - trunc_div(x, d) * d < d,
        x < 0 ==> -d < x - trunc_div(x, d) * d <= 0,
{
    if x >= 0 {
        vstd::arithmetic::div_mod::lemma_fundamental_div_mod(x, d);
        assert(x / d * d == d * (x / d)) by (nonlinear_arith);
    } else {
        vstd::arithmetic::div_mod::lemma_fundamental_div_mod(-x, d);
        assert((-x) / d * d == d * ((-x) / d)) by (nonlinear_arith);
        assert(-((-x) / d) * d == -((-x) / d * d)) by (nonlinear_arith);
    }
}

} // verus!
