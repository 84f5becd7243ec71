use crate::errors::ErrorCode;
use crate::math::{lemma_mul_div_round_trip, mul_div, mul_div_spec, SCALE};
use vstd::arithmetic::div_mod::{lemma_div_by_multiple, lemma_div_is_ordered, lemma_div_pos_is_pos};
use vstd::arithmetic::mul::{
    lemma_mul_inequality, lemma_mul_left_inequality, lemma_mul_nonnegative, lemma_mul_upper_bound,
};
use vstd::prelude::*;

verus! {

/// Total token supply: one billion tokens at the fixed-point scale.
pub const TOTAL_SUPPLY: u64 = 1_000_000_000_000_000;

/// Total-sale-supply threshold: 800 million tokens at the fixed-point
/// scale. Once cumulative units sold would reach it, the curve stops
/// accepting buys and liquidity is expected to migrate to an external
/// market.
pub const CURVE_SUPPLY: u64 = 800_000_000_000_000;

/// Quote scaling between currency and token units: 10 million tokens
/// at the fixed-point scale per unit price.
pub const TOKENS_PER_STEP: u64 = 10_000_000_000_000;

/// Unit price at zero market cap, in currency base units: 0.6015.
pub const BASE_PRICE: u64 = 601_500_000;

/// Growth coefficient of the exponential curve at the fixed-point
/// scale: the exponent input is `market_cap * GROWTH_RATE / SCALE`.
pub const GROWTH_RATE: u64 = 36_060;

/// The scaled exponent input `x` of the curve at a given market cap.
pub open spec fn growth_input(market_cap: int) -> int {
    mul_div_spec(market_cap, GROWTH_RATE as int, SCALE as int)
}

/// `x²`, rescaled by one factor of the scale.
pub open spec fn growth_input_sq(market_cap: int) -> int {
    mul_div_spec(growth_input(market_cap), growth_input(market_cap), SCALE as int)
}

/// `x³`, rescaled by one factor of the scale.
pub open spec fn growth_input_cube(market_cap: int) -> int {
    mul_div_spec(growth_input_sq(market_cap), growth_input(market_cap), SCALE as int)
}

/// Third-order Taylor approximation of `e^x` at the fixed-point scale:
/// `1 + x + x²/2 + x³/6`.
pub open spec fn exp_factor(market_cap: int) -> int {
    SCALE as int + growth_input(market_cap) + growth_input_sq(market_cap) / 2
        + growth_input_cube(market_cap) / 6
}

/// Every intermediate of the factor computation fits in a `u64`.
pub open spec fn exp_factor_fits(market_cap: int) -> bool {
    &&& growth_input(market_cap) <= u64::MAX
    &&& growth_input_sq(market_cap) <= u64::MAX
    &&& growth_input_cube(market_cap) <= u64::MAX
    &&& exp_factor(market_cap) <= u64::MAX
}

/// Unit price of the exponential strategy: the base price scaled by the
/// exponential factor of the market cap.
pub open spec fn price_spec(market_cap: int) -> int {
    mul_div_spec(BASE_PRICE as int, exp_factor(market_cap), SCALE as int)
}

/// The price computation succeeds exactly when everything fits.
pub open spec fn price_fits(market_cap: int) -> bool {
    exp_factor_fits(market_cap) && price_spec(market_cap) <= u64::MAX
}

/// What `BondingCurve::calculate_exp_factor` returns.
pub open spec fn spec_calculate_exp_factor(market_cap: u64) -> Result<u64, ErrorCode> {
    if exp_factor_fits(market_cap as int) {
        Ok(exp_factor(market_cap as int) as u64)
    } else {
        Err(ErrorCode::Overflow)
    }
}

/// What `BondingCurve::calculate_price` returns.
pub open spec fn spec_calculate_price(market_cap: u64) -> Result<u64, ErrorCode> {
    if price_fits(market_cap as int) {
        Ok(price_spec(market_cap as int) as u64)
    } else {
        Err(ErrorCode::Overflow)
    }
}

/// Tokens bought with `sol` currency units at the pre-trade price.
pub open spec fn tokens_out_spec(sol: int, market_cap: int) -> int {
    mul_div_spec(sol, TOKENS_PER_STEP as int, price_spec(market_cap))
}

/// Currency returned for selling `tokens` at the pre-trade price.
pub open spec fn sol_out_spec(tokens: int, market_cap: int) -> int {
    mul_div_spec(tokens, price_spec(market_cap), TOKENS_PER_STEP as int)
}

/// What `BondingCurve::calculate_tokens_out` returns.
pub open spec fn spec_calculate_tokens_out(sol: u64, market_cap: u64) -> Result<u64, ErrorCode> {
    match spec_calculate_price(market_cap) {
        Err(e) => Err(e),
        Ok(price) => if price == 0 {
            Err(ErrorCode::CalculationError)
        } else if tokens_out_spec(sol as int, market_cap as int) > u64::MAX {
            Err(ErrorCode::Overflow)
        } else {
            Ok(tokens_out_spec(sol as int, market_cap as int) as u64)
        },
    }
}

/// What `BondingCurve::calculate_sol_out` returns.
pub open spec fn spec_calculate_sol_out(tokens: u64, market_cap: u64) -> Result<u64, ErrorCode> {
    match spec_calculate_price(market_cap) {
        Err(e) => Err(e),
        Ok(price) => if sol_out_spec(tokens as int, market_cap as int) > u64::MAX {
            Err(ErrorCode::Overflow)
        } else {
            Ok(sol_out_spec(tokens as int, market_cap as int) as u64)
        },
    }
}

/// The exponential curve strategy: unit price grows as an approximated
/// exponential of the cumulative currency raised (the market cap).
/// Every operation is overflow-checked and fails closed; nothing
/// saturates.
pub struct BondingCurve;

impl BondingCurve {
    /// Unit price at the given market cap. The price is evaluated once
    /// per trade, at the pre-trade state.
    pub fn calculate_price(market_cap: u64) -> (r: Result<u64, ErrorCode>)
        ensures
            r == spec_calculate_price(market_cap),
    {
        let factor = match Self::calculate_exp_factor(market_cap) {
            Ok(f) => f,
            Err(e) => {
                return Err(e);
            },
        };
        match mul_div(BASE_PRICE, factor, SCALE) {
            Some(p) => Ok(p),
            None => Err(ErrorCode::Overflow),
        }
    }

    /// The Taylor factor `1 + x + x²/2 + x³/6` at the fixed-point
    /// scale, each multiplication immediately rescaled.
    fn calculate_exp_factor(market_cap: u64) -> (r: Result<u64, ErrorCode>)
        ensures
            r == spec_calculate_exp_factor(market_cap),
    {
        let x = match mul_div(market_cap, GROWTH_RATE, SCALE) {
            Some(v) => v,
            None => {
                return Err(ErrorCode::Overflow);
            },
        };
        let x_squared = match mul_div(x, x, SCALE) {
            Some(v) => v,
            None => {
                return Err(ErrorCode::Overflow);
            },
        };
        let x_cubed = match mul_div(x_squared, x, SCALE) {
            Some(v) => v,
            None => {
                return Err(ErrorCode::Overflow);
            },
        };
        let sum: u128 = SCALE as u128 + x as u128 + (x_squared / 2) as u128 + (x_cubed
            / 6) as u128;
        if sum > u64::MAX as u128 {
            Err(ErrorCode::Overflow)
        } else {
            Ok(sum as u64)
        }
    }

    /// Tokens received for `sol_amount` currency units at the
    /// pre-trade market cap.
    pub fn calculate_tokens_out(sol_amount: u64, current_market_cap: u64) -> (r: Result<
        u64,
        ErrorCode,
    >)
        ensures
            r == spec_calculate_tokens_out(sol_amount, current_market_cap),
    {
        let price = match Self::calculate_price(current_market_cap) {
            Ok(p) => p,
            Err(e) => {
                return Err(e);
            },
        };
        if price == 0 {
            return Err(ErrorCode::CalculationError);
        }
        match mul_div(sol_amount, TOKENS_PER_STEP, price) {
            Some(t) => Ok(t),
            None => Err(ErrorCode::Overflow),
        }
    }

    /// Currency returned for selling `token_amount` tokens at the
    /// pre-trade market cap.
    pub fn calculate_sol_out(token_amount: u64, current_market_cap: u64) -> (r: Result<
        u64,
        ErrorCode,
    >)
        ensures
            r == spec_calculate_sol_out(token_amount, current_market_cap),
    {
        let price = match Self::calculate_price(current_market_cap) {
            Ok(p) => p,
            Err(e) => {
                return Err(e);
            },
        };
        match mul_div(token_amount, price, TOKENS_PER_STEP) {
            Some(s) => Ok(s),
            None => Err(ErrorCode::Overflow),
        }
    }

    /// Whether the cumulative units sold have reached the
    /// total-sale-supply threshold, after which the curve is retired.
    pub fn should_transition_to_raydium(tokens_sold: u64) -> (r: bool)
        ensures
            r == (tokens_sold >= CURVE_SUPPLY),
    {
        tokens_sold >= CURVE_SUPPLY
    }
}

/// Every term of the Taylor factor is nonnegative, so the factor
/// never falls below the scale — the curve never discounts the base
/// price.
proof fn lemma_exp_factor_at_least_scale(market_cap: int)
    requires
        0 <= market_cap,
    ensures
        0 <= growth_input(market_cap),
        0 <= growth_input_sq(market_cap),
        0 <= growth_input_cube(market_cap),
        exp_factor(market_cap) >= SCALE,
{
    lemma_mul_nonnegative(market_cap, GROWTH_RATE as int);
    lemma_div_pos_is_pos(market_cap * (GROWTH_RATE as int), SCALE as int);
    let x = growth_input(market_cap);
    lemma_mul_nonnegative(x, x);
    lemma_div_pos_is_pos(x * x, SCALE as int);
    let s = growth_input_sq(market_cap);
    lemma_mul_nonnegative(s, x);
    lemma_div_pos_is_pos(s * x, SCALE as int);
    let c = growth_input_cube(market_cap);
    lemma_div_pos_is_pos(s, 2);
    lemma_div_pos_is_pos(c, 6);
}

/// At every market cap the exponential unit price is strictly
/// positive: it never falls below the base price.
pub proof fn lemma_exp_price_positive(market_cap: int)
    requires
        0 <= market_cap,
    ensures
        price_spec(market_cap) >= BASE_PRICE,
{
    lemma_exp_factor_at_least_scale(market_cap);
    lemma_mul_left_inequality(BASE_PRICE as int, SCALE as int, exp_factor(market_cap));
    lemma_div_is_ordered(
        (BASE_PRICE as int) * (SCALE as int),
        (BASE_PRICE as int) * exp_factor(market_cap),
        SCALE as int,
    );
    lemma_div_by_multiple(BASE_PRICE as int, SCALE as int);
}

/// The exponential unit price is non-decreasing in the currency
/// raised: a larger market cap never quotes a cheaper unit.
pub proof fn lemma_exp_price_monotonic(market_cap1: int, market_cap2: int)
    requires
        0 <= market_cap1 <= market_cap2,
    ensures
        exp_factor(market_cap1) <= exp_factor(market_cap2),
        price_spec(market_cap1) <= price_spec(market_cap2),
{
    lemma_exp_factor_at_least_scale(market_cap1);
    lemma_exp_factor_at_least_scale(market_cap2);
    lemma_mul_inequality(market_cap1, market_cap2, GROWTH_RATE as int);
    lemma_div_is_ordered(
        market_cap1 * (GROWTH_RATE as int),
        market_cap2 * (GROWTH_RATE as int),
        SCALE as int,
    );
    let x1 = growth_input(market_cap1);
    let x2 = growth_input(market_cap2);
    lemma_mul_upper_bound(x1, x2, x1, x2);
    lemma_div_is_ordered(x1 * x1, x2 * x2, SCALE as int);
    let s1 = growth_input_sq(market_cap1);
    let s2 = growth_input_sq(market_cap2);
    lemma_mul_upper_bound(s1, s2, x1, x2);
    lemma_div_is_ordered(s1 * x1, s2 * x2, SCALE as int);
    lemma_div_is_ordered(s1, s2, 2);
    lemma_div_is_ordered(growth_input_cube(market_cap1), growth_input_cube(market_cap2), 6);
    lemma_mul_left_inequality(
        BASE_PRICE as int,
        exp_factor(market_cap1),
        exp_factor(market_cap2),
    );
    lemma_div_is_ordered(
        (BASE_PRICE as int) * exp_factor(market_cap1),
        (BASE_PRICE as int) * exp_factor(market_cap2),
        SCALE as int,
    );
}

/// The exponential unit price is never zero, so a buy quote through
/// this strategy never fails on a zero denominator: of the errors it
/// can report, only the overflow remains.
pub proof fn lemma_exp_quote_never_division_error(sol: u64, market_cap: u64)
    ensures
        spec_calculate_tokens_out(sol, market_cap) != Err::<u64, ErrorCode>(
            ErrorCode::CalculationError,
        ),
{
    lemma_exp_price_positive(market_cap as int);
}

/// Quoting a buy of `currency_in` and immediately quoting a sell of
/// the resulting tokens at the same state never yields more currency
/// than went in: the curve cannot create value, already before fees.
pub proof fn lemma_exp_round_trip(market_cap: int, currency_in: int)
    requires
        0 <= market_cap,
        0 <= currency_in,
    ensures
        sol_out_spec(tokens_out_spec(currency_in, market_cap), market_cap) <= currency_in,
{
    lemma_exp_price_positive(market_cap);
    lemma_mul_div_round_trip(currency_in, TOKENS_PER_STEP as int, price_spec(market_cap));
}

} // verus!
