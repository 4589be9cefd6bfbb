//! The fixed-point scale shared by all quantities of the game, and the
//! rounding of its one division.

use vstd::prelude::*;

verus! {

/// Number of fixed-point units in one pixel.
pub const UNITS_PER_PIXEL: i64 = 1000;

/// The length of `n` whole pixels, in units.
pub open spec fn pixel_units(n: int) -> int {
    n * UNITS_PER_PIXEL
}

/// Converts a length in whole pixels to units.
pub fn pixels(n: u32) -> (units: i64)
    ensures
        units == pixel_units(n as int),
{
    let wide: i64 = n as i64;
    wide * UNITS_PER_PIXEL
}

/// `value` can be held in an `i64`.
pub open spec fn fits(value: int) -> bool {
    i64::MIN <= value <= i64::MAX
}

/// Quotient of `a` by a positive `b`, rounded towards zero.
pub open spec fn truncated_quotient(a: int, b: int) -> int
    recommends
        b > 0,
{
    if a >= 0 {
        a / b
    } else {
        -((-a) / b)
    }
}

/// Rounding towards zero is odd: negating the dividend negates the quotient.
pub proof fn lemma_truncated_quotient_is_odd(a: int, b: int)
    requires
        b > 0,
    ensures
        truncated_quotient(-a, b) == -truncated_quotient(a, b),
{
}

/// The truncated quotient `q` of `a` by `b` is the integer next to the exact
/// quotient on the side of zero: `q * b` lies between zero and `a`, less than
/// `b` away from `a`.
pub proof fn lemma_truncated_quotient_rounds_towards_zero(a: int, b: int)
    requires
        b > 0,
    ensures
        a >= 0 ==> 0 <= truncated_quotient(a, b) * b <= a < truncated_quotient(a, b) * b + b,
        a <= 0 ==> 0 >= truncated_quotient(a, b) * b >= a > truncated_quotient(a, b) * b - b,
{
    if a >= 0 {
        vstd::arithmetic::div_mod::lemma_fundamental_div_mod(a, b);
        vstd::arithmetic::div_mod::lemma_mod_bound(a, b);
        assert(b * (a / b) == (a / b) * b) by (nonlinear_arith);
    } else {
        vstd::arithmetic::div_mod::lemma_fundamental_div_mod(-a, b);
        vstd::arithmetic::div_mod::lemma_mod_bound(-a, b);
        assert(b * ((-a) / b) == ((-a) / b) * b) by (nonlinear_arith);
        assert((-((-a) / b)) * b == -(((-a) / b) * b)) by (nonlinear_arith);
    }
}

/// The truncated quotient lies between zero and the dividend.
pub proof fn lemma_truncated_quotient_is_no_larger(a: int, b: int)
    requires
        b > 0,
    ensures
        a >= 0 ==> 0 <= truncated_quotient(a, b) <= a,
        a <= 0 ==> a <= truncated_quotient(a, b) <= 0,
{
    if a >= 0 {
        vstd::arithmetic::div_mod::lemma_div_nonincreasing(a, b);
        vstd::arithmetic::div_mod::lemma_div_pos_is_pos(a, b);
    } else {
        vstd::arithmetic::div_mod::lemma_div_nonincreasing(-a, b);
        vstd::arithmetic::div_mod::lemma_div_pos_is_pos(-a, b);
    }
}

} // verus!
