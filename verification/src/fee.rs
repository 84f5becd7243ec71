use crate::math::BPS_DENOMINATOR;
use vstd::arithmetic::div_mod::{lemma_div_is_ordered, lemma_div_multiples_vanish};
use vstd::arithmetic::mul::lemma_mul_upper_bound;
use vstd::prelude::*;

verus! {

/// Cap on the configurable trading fee: 1000 basis points, ten percent.
pub const MAX_FEE_BPS: u16 = 1000;

/// The fee that a basis-point rate takes out of `amount`, rounded down.
pub open spec fn fee_spec(amount: int, fee_bps: int) -> int {
    amount * fee_bps / (BPS_DENOMINATOR as int)
}

/// Splits `amount` into the fee owed at `fee_bps` and the remainder.
/// The fee rounds down, so the two parts rebuild `amount` exactly and
/// the fee never exceeds it. The rate is validated when the
/// configuration is written, not here.
pub fn compute_fee(amount: u64, fee_bps: u16) -> (r: (u64, u64))
    requires
        fee_bps <= MAX_FEE_BPS,
    ensures
        r.0 == fee_spec(amount as int, fee_bps as int),
        r.0 <= amount,
        r.0 + r.1 == amount,
{
    proof {
        lemma_mul_upper_bound(amount as int, u64::MAX as int, fee_bps as int, 1000);
        assert(amount * fee_bps <= amount * (BPS_DENOMINATOR as int)) by (nonlinear_arith)
            requires
                fee_bps <= BPS_DENOMINATOR,
                0 <= amount,
        ;
        lemma_div_is_ordered(
            amount * fee_bps,
            amount * (BPS_DENOMINATOR as int),
            BPS_DENOMINATOR as int,
        );
        lemma_div_multiples_vanish(amount as int, BPS_DENOMINATOR as int);
    }
    let wide: u128 = (amount as u128) * (fee_bps as u128);
    let fee: u64 = (wide / (BPS_DENOMINATOR as u128)) as u64;
    (fee, amount - fee)
}

} // verus!
