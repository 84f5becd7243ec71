use vstd::arithmetic::div_mod::{
    lemma_div_by_multiple, lemma_div_is_ordered, lemma_fundamental_div_mod, lemma_mod_bound,
};
use vstd::arithmetic::mul::{lemma_mul_is_commutative, lemma_mul_upper_bound};
use vstd::prelude::*;

verus! {

/// Fixed-point scale: six implied decimal digits, shared by currency
/// amounts and market-cap inputs.
pub const SCALE: u64 = 1_000_000;

/// Denominator of a basis-point rate.
pub const BPS_DENOMINATOR: u64 = 10_000;

/// `a * b / c` over the unbounded integers, rounding toward zero.
pub open spec fn mul_div_spec(a: int, b: int, c: int) -> int {
    a * b / c
}

/// Overflow-checked scaled multiplication and division: `a * b / c`,
/// computed exactly over a wide intermediate. Fails closed — `None` —
/// when the divisor is zero or the quotient does not fit in a `u64`;
/// it never saturates.
pub fn mul_div(a: u64, b: u64, c: u64) -> (r: Option<u64>)
    ensures
        r is Some <==> c != 0 && mul_div_spec(a as int, b as int, c as int) <= u64::MAX,
        c != 0 && mul_div_spec(a as int, b as int, c as int) <= u64::MAX ==> r == Some(
            mul_div_spec(a as int, b as int, c as int) as u64,
        ),
        c != 0 ==> mul_div_spec(a as int, b as int, c as int) >= 0,
{
    if c == 0 {
        return None;
    }
    proof {
        lemma_mul_upper_bound(a as int, u64::MAX as int, b as int, u64::MAX as int);
    }
    let wide: u128 = (a as u128) * (b as u128);
    let q: u128 = wide / (c as u128);
    if q > u64::MAX as u128 {
        None
    } else {
        Some(q as u64)
    }
}

/// Converting `a` at the rate `b / c` and converting the result back
/// at the inverse rate `c / b`, each step rounding down, never exceeds
/// `a`: a rounding conversion cannot create value.
pub proof fn lemma_mul_div_round_trip(a: int, b: int, c: int)
    requires
        0 <= a,
        0 < b,
        0 < c,
    ensures
        mul_div_spec(mul_div_spec(a, b, c), c, b) <= a,
{
    let t = a * b / c;
    lemma_fundamental_div_mod(a * b, c);
    lemma_mod_bound(a * b, c);
    assert(c * t <= a * b);
    lemma_mul_is_commutative(c, t);
    lemma_div_is_ordered(t * c, a * b, b);
    lemma_div_by_multiple(a, b);
}

} // verus!
