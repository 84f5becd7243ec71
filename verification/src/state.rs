use crate::account::AccountId;
use crate::errors::ErrorCode;
use crate::math::{lemma_mul_div_round_trip, mul_div, mul_div_spec, SCALE};
use vstd::arithmetic::mul::{
    lemma_mul_inequality, lemma_mul_is_commutative, lemma_mul_nonnegative,
};
use vstd::prelude::*;

verus! {

/// Unit price the linear strategy starts from, in currency base units.
pub const LINEAR_INITIAL_PRICE: u64 = 1_000_000;

/// Price increase per unit sold for the linear strategy.
pub const LINEAR_SLOPE: u64 = 100;

/// The most currency the linear curve may hold.
pub const LINEAR_LIQUIDITY_TARGET: u64 = 17_000_000_000;

/// Byte length of a string under UTF-8, the length its on-chain
/// representation is measured by.
pub open spec fn byte_len(s: Seq<char>) -> nat {
    vstd::utf8::encode_utf8(s).len()
}

/// Descriptive metadata recorded once when a token is created.
#[derive(Debug)]
pub struct TokenMetadata {
    pub name: String,
    pub symbol: String,
    pub description: String,
    pub image_url: String,
    pub creator: AccountId,
    pub creation_time: i64,
}

/// The market state of one token paired with the linear strategy's
/// constants: unit price is `initial_price + slope * units_sold`, the
/// held currency never exceeds `liquidity_target`, and every mutation
/// routes through checked arithmetic that fails closed.
#[derive(Clone, Copy, Debug, PartialEq, Eq, Structural)]
pub struct BondingCurveParams {
    pub initial_price: u64,
    pub slope: u64,
    pub liquidity_target: u64,
    pub current_supply: u64,
    pub total_liquidity: u64,
    pub bump: u8,
}

/// Linear unit price with `amount` more units priced in:
/// `initial_price + slope * (current_supply + amount)`.
pub open spec fn linear_price(p: BondingCurveParams, amount: int) -> int {
    p.initial_price + (p.slope as int) * (p.current_supply + amount)
}

/// What `BondingCurveParams::calculate_price` returns.
pub open spec fn spec_linear_calculate_price(p: BondingCurveParams, amount: u64) -> Result<
    u64,
    ErrorCode,
> {
    if p.current_supply + amount > u64::MAX {
        Err(ErrorCode::Overflow)
    } else if (p.slope as int) * (p.current_supply + amount) > u64::MAX {
        Err(ErrorCode::Overflow)
    } else if linear_price(p, amount as int) > u64::MAX {
        Err(ErrorCode::Overflow)
    } else {
        Ok(linear_price(p, amount as int) as u64)
    }
}

/// What `BondingCurveParams::calculate_buy_return` returns.
pub open spec fn spec_buy_return(p: BondingCurveParams, sol_amount: u64) -> Result<
    u64,
    ErrorCode,
> {
    match spec_linear_calculate_price(p, 0) {
        Err(e) => Err(e),
        Ok(price) => if !(price != 0 && mul_div_spec(sol_amount as int, SCALE as int, price as int)
            <= u64::MAX) {
            Err(ErrorCode::Overflow)
        } else if p.total_liquidity + sol_amount > u64::MAX {
            Err(ErrorCode::Overflow)
        } else if p.total_liquidity + sol_amount > p.liquidity_target {
            Err(ErrorCode::LiquidityTargetExceeded)
        } else {
            Ok(mul_div_spec(sol_amount as int, SCALE as int, price as int) as u64)
        },
    }
}

/// What `BondingCurveParams::calculate_sell_return` returns.
pub open spec fn spec_sell_return(p: BondingCurveParams, token_amount: u64) -> Result<
    u64,
    ErrorCode,
> {
    match spec_linear_calculate_price(p, 0) {
        Err(e) => Err(e),
        Ok(price) => if mul_div_spec(token_amount as int, price as int, SCALE as int)
            > u64::MAX {
            Err(ErrorCode::Overflow)
        } else if mul_div_spec(token_amount as int, price as int, SCALE as int)
            > p.total_liquidity {
            Err(ErrorCode::InsufficientLiquidity)
        } else {
            Ok(mul_div_spec(token_amount as int, price as int, SCALE as int) as u64)
        },
    }
}

impl BondingCurveParams {
    /// Linear unit price with `amount` more units priced in; fails
    /// closed on any overflow.
    pub fn calculate_price(&self, amount: u64) -> (r: Result<u64, ErrorCode>)
        ensures
            r == spec_linear_calculate_price(*self, amount),
    {
        let new_supply = match self.current_supply.checked_add(amount) {
            Some(v) => v,
            None => {
                return Err(ErrorCode::Overflow);
            },
        };
        let scaled = match self.slope.checked_mul(new_supply) {
            Some(v) => v,
            None => {
                return Err(ErrorCode::Overflow);
            },
        };
        match self.initial_price.checked_add(scaled) {
            Some(price) => Ok(price),
            None => Err(ErrorCode::Overflow),
        }
    }

    /// Tokens received for `sol_amount` currency units at the price of
    /// the current supply; rejects a buy that would push the held
    /// currency past the liquidity target.
    pub fn calculate_buy_return(&self, sol_amount: u64) -> (r: Result<u64, ErrorCode>)
        ensures
            r == spec_buy_return(*self, sol_amount),
    {
        let current_price = match self.calculate_price(0) {
            Ok(p) => p,
            Err(e) => {
                return Err(e);
            },
        };
        let tokens_out = match mul_div(sol_amount, SCALE, current_price) {
            Some(t) => t,
            None => {
                return Err(ErrorCode::Overflow);
            },
        };
        let new_liquidity = match self.total_liquidity.checked_add(sol_amount) {
            Some(v) => v,
            None => {
                return Err(ErrorCode::Overflow);
            },
        };
        if new_liquidity > self.liquidity_target {
            return Err(ErrorCode::LiquidityTargetExceeded);
        }
        Ok(tokens_out)
    }

    /// Currency returned for selling `token_amount` units at the price
    /// of the current supply; rejects a payout beyond the currency the
    /// curve holds.
    pub fn calculate_sell_return(&self, token_amount: u64) -> (r: Result<u64, ErrorCode>)
        ensures
            r == spec_sell_return(*self, token_amount),
    {
        let current_price = match self.calculate_price(0) {
            Ok(p) => p,
            Err(e) => {
                return Err(e);
            },
        };
        let sol_out = match mul_div(token_amount, current_price, SCALE) {
            Some(s) => s,
            None => {
                return Err(ErrorCode::Overflow);
            },
        };
        if sol_out > self.total_liquidity {
            return Err(ErrorCode::InsufficientLiquidity);
        }
        Ok(sol_out)
    }
}

/// The curve parameters every new market starts from.
pub open spec fn initial_curve_params(bump: u8) -> BondingCurveParams {
    BondingCurveParams {
        initial_price: LINEAR_INITIAL_PRICE,
        slope: LINEAR_SLOPE,
        liquidity_target: LINEAR_LIQUIDITY_TARGET,
        current_supply: 0u64,
        total_liquidity: 0u64,
        bump,
    }
}

/// Validates the descriptive inputs of a new token and, when they
/// pass, returns its metadata together with the market state a fresh
/// curve starts from: zero units sold, zero currency raised.
pub fn create_token(
    name: String,
    symbol: String,
    description: String,
    image_url: String,
    creator: AccountId,
    creation_time: i64,
    bump: u8,
) -> (r: Result<(TokenMetadata, BondingCurveParams), ErrorCode>)
    ensures
        byte_len(name@) > 32 ==> r == Err::<(TokenMetadata, BondingCurveParams), ErrorCode>(
            ErrorCode::NameTooLong,
        ),
        byte_len(name@) <= 32 && byte_len(symbol@) > 10 ==> r == Err::<
            (TokenMetadata, BondingCurveParams),
            ErrorCode,
        >(ErrorCode::SymbolTooLong),
        byte_len(name@) <= 32 && byte_len(symbol@) <= 10 ==> (r matches Ok(out)
            && out.0.name@ == name@ && out.0.symbol@ == symbol@ && out.0.description@
            == description@ && out.0.image_url@ == image_url@ && out.0.creator == creator
            && out.0.creation_time == creation_time && out.1 == initial_curve_params(bump)),
{
    if name.as_str().as_bytes().len() > 32 {
        return Err(ErrorCode::NameTooLong);
    }
    if symbol.as_str().as_bytes().len() > 10 {
        return Err(ErrorCode::SymbolTooLong);
    }
    let metadata = TokenMetadata { name, symbol, description, image_url, creator, creation_time };
    let params = BondingCurveParams {
        initial_price: LINEAR_INITIAL_PRICE,
        slope: LINEAR_SLOPE,
        liquidity_target: LINEAR_LIQUIDITY_TARGET,
        current_supply: 0,
        total_liquidity: 0,
        bump,
    };
    Ok((metadata, params))
}

/// Whenever the starting price is positive, the linear unit price is
/// strictly positive at every supply level.
pub proof fn lemma_linear_price_positive(p: BondingCurveParams, amount: int)
    requires
        p.initial_price > 0,
        0 <= p.current_supply + amount,
    ensures
        linear_price(p, amount) >= p.initial_price,
        linear_price(p, amount) > 0,
{
    lemma_mul_nonnegative(p.slope as int, p.current_supply + amount);
}

/// The linear unit price is non-decreasing in the amount priced in: a
/// bigger position never quotes a cheaper unit.
pub proof fn lemma_linear_price_monotonic(p: BondingCurveParams, amount1: int, amount2: int)
    requires
        0 <= p.current_supply + amount1,
        p.current_supply + amount1 <= p.current_supply + amount2,
    ensures
        linear_price(p, amount1) <= linear_price(p, amount2),
{
    lemma_mul_inequality(
        p.current_supply + amount1,
        p.current_supply + amount2,
        p.slope as int,
    );
    lemma_mul_is_commutative(p.slope as int, p.current_supply + amount1);
    lemma_mul_is_commutative(p.slope as int, p.current_supply + amount2);
}

/// The linear unit price is non-decreasing in the units already sold:
/// of two markets on the same curve constants, the one that has sold
/// more never quotes a cheaper unit.
pub proof fn lemma_linear_price_supply_monotonic(
    p1: BondingCurveParams,
    p2: BondingCurveParams,
    amount: int,
)
    requires
        p1.initial_price == p2.initial_price,
        p1.slope == p2.slope,
        0 <= p1.current_supply + amount,
        p1.current_supply <= p2.current_supply,
    ensures
        linear_price(p1, amount) <= linear_price(p2, amount),
{
    lemma_mul_inequality(
        p1.current_supply + amount,
        p2.current_supply + amount,
        p1.slope as int,
    );
    lemma_mul_is_commutative(p1.slope as int, p1.current_supply + amount);
    lemma_mul_is_commutative(p2.slope as int, p2.current_supply + amount);
}

/// Quoting a buy of `currency_in` and immediately quoting a sell of
/// the resulting tokens at the same state never yields more currency
/// than went in: the linear curve cannot create value, already before
/// fees.
pub proof fn lemma_linear_round_trip(p: BondingCurveParams, currency_in: int)
    requires
        linear_price(p, 0) > 0,
        0 <= currency_in,
    ensures
        mul_div_spec(
            mul_div_spec(currency_in, SCALE as int, linear_price(p, 0)),
            linear_price(p, 0),
            SCALE as int,
        ) <= currency_in,
{
    lemma_mul_div_round_trip(currency_in, SCALE as int, linear_price(p, 0));
}

} // verus!
