use crate::account::AccountId;
use crate::bonding_curve::{
    lemma_exp_price_monotonic, lemma_exp_price_positive, lemma_exp_round_trip, sol_out_spec,
    spec_calculate_price, spec_calculate_sol_out, spec_calculate_tokens_out, tokens_out_spec,
    BondingCurve, CURVE_SUPPLY,
};
use crate::config::ProgramConfig;
use crate::errors::ErrorCode;
use crate::fee::{compute_fee, fee_spec, MAX_FEE_BPS};
use crate::state::{
    lemma_linear_price_positive, lemma_linear_price_supply_monotonic, lemma_linear_round_trip,
    linear_price, spec_buy_return, spec_linear_calculate_price, spec_sell_return,
    BondingCurveParams,
};
use vstd::arithmetic::div_mod::{
    lemma_div_is_ordered, lemma_div_multiples_vanish, lemma_div_pos_is_pos,
};
use vstd::arithmetic::mul::lemma_mul_nonnegative;
use vstd::prelude::*;

verus! {

/// The two interchangeable pricing strategies behind one interface.
/// A market is paired with exactly one strategy when it is created;
/// the exponential curve is the deployed default.
#[derive(Clone, Copy, Debug, PartialEq, Eq, Structural)]
pub enum CurveStrategy {
    /// Unit price grows as an approximated exponential of the currency
    /// raised.
    Exponential,
    /// Unit price grows linearly with the units sold.
    Linear,
}

/// Emitted to the external event sink after a committed trade.
#[derive(Clone, Copy, Debug, PartialEq, Eq, Structural)]
pub struct TradeEvent {
    pub user: AccountId,
    pub token_mint: AccountId,
    pub amount_in: u64,
    pub amount_out: u64,
    pub is_buy: bool,
    pub timestamp: i64,
}

/// What a committed trade asks of the custody collaborator, beside the
/// already mutated market state. On a buy the user pays `fee_amount`
/// to the fee collector and `amount_after_fee` into the curve, and is
/// minted `amount_out` tokens. On a sell `amount_in` tokens are
/// burned, and of the curve's gross outflow `amount_out`, the fee
/// collector receives `fee_amount` and the user `amount_after_fee`.
#[derive(Clone, Copy, Debug, PartialEq, Eq, Structural)]
pub struct TradeOutcome {
    pub fee_amount: u64,
    pub amount_after_fee: u64,
    pub amount_out: u64,
    pub event: TradeEvent,
}

/// The unit price a strategy quotes at the pre-trade state.
pub open spec fn spec_price_at(strategy: CurveStrategy, curve: BondingCurveParams) -> Result<
    u64,
    ErrorCode,
> {
    match strategy {
        CurveStrategy::Exponential => spec_calculate_price(curve.total_liquidity),
        CurveStrategy::Linear => spec_linear_calculate_price(curve, 0),
    }
}

/// The tokens a strategy hands out for `currency_in` at the pre-trade
/// state.
pub open spec fn spec_quote_buy(
    strategy: CurveStrategy,
    curve: BondingCurveParams,
    currency_in: u64,
) -> Result<u64, ErrorCode> {
    match strategy {
        CurveStrategy::Exponential => spec_calculate_tokens_out(
            currency_in,
            curve.total_liquidity,
        ),
        CurveStrategy::Linear => spec_buy_return(curve, currency_in),
    }
}

/// The currency a strategy pays for `tokens_in` at the pre-trade
/// state.
pub open spec fn spec_quote_sell(
    strategy: CurveStrategy,
    curve: BondingCurveParams,
    tokens_in: u64,
) -> Result<u64, ErrorCode> {
    match strategy {
        CurveStrategy::Exponential => spec_calculate_sol_out(tokens_in, curve.total_liquidity),
        CurveStrategy::Linear => spec_sell_return(curve, tokens_in),
    }
}

/// Unit price at the pre-trade state, under the market's strategy.
pub fn price_at(strategy: CurveStrategy, curve: BondingCurveParams) -> (r: Result<u64, ErrorCode>)
    ensures
        r == spec_price_at(strategy, curve),
{
    match strategy {
        CurveStrategy::Exponential => BondingCurve::calculate_price(curve.total_liquidity),
        CurveStrategy::Linear => curve.calculate_price(0),
    }
}

/// Tokens out for a buy of `currency_in`, under the market's strategy.
pub fn quote_buy(strategy: CurveStrategy, curve: BondingCurveParams, currency_in: u64) -> (r:
    Result<u64, ErrorCode>)
    ensures
        r == spec_quote_buy(strategy, curve, currency_in),
{
    match strategy {
        CurveStrategy::Exponential => BondingCurve::calculate_tokens_out(
            currency_in,
            curve.total_liquidity,
        ),
        CurveStrategy::Linear => curve.calculate_buy_return(currency_in),
    }
}

/// Currency out for a sell of `tokens_in`, under the market's
/// strategy.
pub fn quote_sell(strategy: CurveStrategy, curve: BondingCurveParams, tokens_in: u64) -> (r:
    Result<u64, ErrorCode>)
    ensures
        r == spec_quote_sell(strategy, curve, tokens_in),
{
    match strategy {
        CurveStrategy::Exponential => BondingCurve::calculate_sol_out(
            tokens_in,
            curve.total_liquidity,
        ),
        CurveStrategy::Linear => curve.calculate_sell_return(tokens_in),
    }
}

/// The whole trade decision as a function of the pre-trade state: the
/// checks in order — pause, fee, quote at the pre-trade state,
/// slippage, graduation (buy only), liquidity and supply invariants —
/// and, when every check passes, the committed state beside the fee,
/// the net amount and the counter-amount. Every rejection leaves the
/// state exactly as it was.
pub open spec fn spec_trade(
    strategy: CurveStrategy,
    curve: BondingCurveParams,
    config: ProgramConfig,
    amount_in: u64,
    min_amount_out: u64,
    is_buy: bool,
) -> Result<(BondingCurveParams, u64, u64, u64), ErrorCode> {
    if config.trading_paused {
        Err(ErrorCode::TradingPaused)
    } else if is_buy {
        let fee = fee_spec(amount_in as int, config.trading_fee_bps as int);
        let net = amount_in - fee;
        match spec_quote_buy(strategy, curve, net as u64) {
            Err(e) => Err(e),
            Ok(tokens) => if tokens < min_amount_out {
                Err(ErrorCode::SlippageExceeded)
            } else if curve.current_supply + tokens >= CURVE_SUPPLY {
                Err(ErrorCode::GraduationReached)
            } else if curve.total_liquidity + net > u64::MAX {
                Err(ErrorCode::Overflow)
            } else {
                Ok(
                    (
                        (BondingCurveParams {
                            current_supply: (curve.current_supply + tokens) as u64,
                            total_liquidity: (curve.total_liquidity + net) as u64,
                            ..curve
                        }),
                        fee as u64,
                        net as u64,
                        tokens,
                    ),
                )
            },
        }
    } else {
        match spec_quote_sell(strategy, curve, amount_in) {
            Err(e) => Err(e),
            Ok(sol_out) => if sol_out < min_amount_out {
                Err(ErrorCode::SlippageExceeded)
            } else if sol_out > curve.total_liquidity {
                Err(ErrorCode::InsufficientLiquidity)
            } else if amount_in > curve.current_supply {
                Err(ErrorCode::Overflow)
            } else {
                let fee = fee_spec(sol_out as int, config.trading_fee_bps as int);
                let net = sol_out - fee;
                Ok(
                    (
                        (BondingCurveParams {
                            current_supply: (curve.current_supply - amount_in) as u64,
                            total_liquidity: (curve.total_liquidity - sol_out) as u64,
                            ..curve
                        }),
                        fee as u64,
                        net as u64,
                        sol_out,
                    ),
                )
            },
        }
    }
}

/// Executes one trade against one market under the global
/// configuration, with the strategy the market was created with.
///
/// Behaviour is pinned to `spec_trade`: the quote is taken at the
/// pre-trade state, a paused market rejects every trade, a buy that
/// would push the units sold to or past the total-sale-supply
/// threshold is rejected with `GraduationReached`, a sell whose payout
/// exceeds the held currency is rejected with
/// `InsufficientLiquidity`, and every rejection leaves the market
/// state untouched. On success both state fields are updated together
/// and the returned outcome carries the custody instructions and the
/// trade event.
pub fn trade_token(
    curve: &mut BondingCurveParams,
    config: &ProgramConfig,
    strategy: CurveStrategy,
    user: AccountId,
    token_mint: AccountId,
    amount_in: u64,
    min_amount_out: u64,
    is_buy: bool,
    timestamp: i64,
) -> (r: Result<TradeOutcome, ErrorCode>)
    requires
        config.wf(),
    ensures
        match spec_trade(strategy, *old(curve), *config, amount_in, min_amount_out, is_buy) {
            Err(e) => r == Err::<TradeOutcome, ErrorCode>(e) && *final(curve) == *old(curve),
            Ok(t) => *final(curve) == t.0 && r == Ok::<TradeOutcome, ErrorCode>(
                (TradeOutcome {
                    fee_amount: t.1,
                    amount_after_fee: t.2,
                    amount_out: t.3,
                    event: (TradeEvent {
                        user,
                        token_mint,
                        amount_in,
                        amount_out: if is_buy {
                            t.3
                        } else {
                            t.2
                        },
                        is_buy,
                        timestamp,
                    }),
                }),
            ),
        },
        config.trading_paused ==> r == Err::<TradeOutcome, ErrorCode>(ErrorCode::TradingPaused),
        r is Err ==> *final(curve) == *old(curve),
{
    if config.trading_paused {
        return Err(ErrorCode::TradingPaused);
    }
    if is_buy {
        let (fee_amount, amount_after_fee) = compute_fee(amount_in, config.trading_fee_bps);
        let tokens_out = match quote_buy(strategy, *curve, amount_after_fee) {
            Ok(t) => t,
            Err(e) => {
                return Err(e);
            },
        };
        if tokens_out < min_amount_out {
            return Err(ErrorCode::SlippageExceeded);
        }
        let new_supply = match curve.current_supply.checked_add(tokens_out) {
            Some(v) => v,
            None => {
                return Err(ErrorCode::GraduationReached);
            },
        };
        if new_supply >= CURVE_SUPPLY {
            return Err(ErrorCode::GraduationReached);
        }
        let new_liquidity = match curve.total_liquidity.checked_add(amount_after_fee) {
            Some(v) => v,
            None => {
                return Err(ErrorCode::Overflow);
            },
        };
        curve.current_supply = new_supply;
        curve.total_liquidity = new_liquidity;
        Ok(
            TradeOutcome {
                fee_amount,
                amount_after_fee,
                amount_out: tokens_out,
                event: TradeEvent {
                    user,
                    token_mint,
                    amount_in,
                    amount_out: tokens_out,
                    is_buy: true,
                    timestamp,
                },
            },
        )
    } else {
        let sol_out = match quote_sell(strategy, *curve, amount_in) {
            Ok(s) => s,
            Err(e) => {
                return Err(e);
            },
        };
        if sol_out < min_amount_out {
            return Err(ErrorCode::SlippageExceeded);
        }
        if sol_out > curve.total_liquidity {
            return Err(ErrorCode::InsufficientLiquidity);
        }
        if amount_in > curve.current_supply {
            return Err(ErrorCode::Overflow);
        }
        let (fee_amount, amount_after_fee) = compute_fee(sol_out, config.trading_fee_bps);
        curve.current_supply = curve.current_supply - amount_in;
        curve.total_liquidity = curve.total_liquidity - sol_out;
        Ok(
            TradeOutcome {
                fee_amount,
                amount_after_fee,
                amount_out: sol_out,
                event: TradeEvent {
                    user,
                    token_mint,
                    amount_in,
                    amount_out: amount_after_fee,
                    is_buy: false,
                    timestamp,
                },
            },
        )
    }
}

/// While trading is paused every trade request, buy or sell, under
/// either strategy, is rejected with `TradingPaused`; by
/// `trade_token`'s contract the market state is left untouched.
pub proof fn lemma_paused_rejects_trades(
    strategy: CurveStrategy,
    curve: BondingCurveParams,
    config: ProgramConfig,
    amount_in: u64,
    min_amount_out: u64,
    is_buy: bool,
)
    requires
        config.trading_paused,
    ensures
        spec_trade(strategy, curve, config, amount_in, min_amount_out, is_buy) == Err::<
            (BondingCurveParams, u64, u64, u64),
            ErrorCode,
        >(ErrorCode::TradingPaused),
{
}

/// The trade decision reads the configuration only through the pause
/// flag and the fee rate. So resuming after a pause restores trading
/// exactly as it was, and a change of admin or fee collector never
/// changes what any trade does.
pub proof fn lemma_trade_reads_only_pause_and_fee(
    strategy: CurveStrategy,
    curve: BondingCurveParams,
    config1: ProgramConfig,
    config2: ProgramConfig,
    amount_in: u64,
    min_amount_out: u64,
    is_buy: bool,
)
    requires
        !config1.trading_paused,
        !config2.trading_paused,
        config1.trading_fee_bps == config2.trading_fee_bps,
    ensures
        spec_trade(strategy, curve, config1, amount_in, min_amount_out, is_buy) == spec_trade(
            strategy,
            curve,
            config2,
            amount_in,
            min_amount_out,
            is_buy,
        ),
{
}

/// A buy whose quoted tokens would push the units sold to or past the
/// total-sale-supply threshold is rejected with `GraduationReached`:
/// the crossing trade is refused outright, never clamped, and by
/// `trade_token`'s contract the market state is left unchanged.
pub proof fn lemma_buy_graduation_rejected(
    strategy: CurveStrategy,
    curve: BondingCurveParams,
    config: ProgramConfig,
    amount_in: u64,
    min_amount_out: u64,
)
    requires
        !config.trading_paused,
        spec_quote_buy(
            strategy,
            curve,
            (amount_in - fee_spec(amount_in as int, config.trading_fee_bps as int)) as u64,
        ) matches Ok(tokens) && tokens >= min_amount_out && curve.current_supply + tokens
            >= CURVE_SUPPLY,
    ensures
        spec_trade(strategy, curve, config, amount_in, min_amount_out, true) == Err::<
            (BondingCurveParams, u64, u64, u64),
            ErrorCode,
        >(ErrorCode::GraduationReached),
{
}

/// A sell whose computed currency payout exceeds the currency the
/// curve holds is rejected with `InsufficientLiquidity`; by
/// `trade_token`'s contract the market state is left unchanged. The
/// linear strategy rejects such a sell already at the quote, so its
/// quote never returns a payout beyond the held currency.
pub proof fn lemma_sell_insufficient_liquidity_rejected(
    strategy: CurveStrategy,
    curve: BondingCurveParams,
    config: ProgramConfig,
    amount_in: u64,
    min_amount_out: u64,
)
    requires
        !config.trading_paused,
        spec_quote_sell(strategy, curve, amount_in) matches Ok(sol_out) && sol_out
            >= min_amount_out && sol_out > curve.total_liquidity,
    ensures
        spec_trade(strategy, curve, config, amount_in, min_amount_out, false) == Err::<
            (BondingCurveParams, u64, u64, u64),
            ErrorCode,
        >(ErrorCode::InsufficientLiquidity),
{
}

/// At every market state the quoted unit price is strictly positive:
/// always under the exponential strategy, and under the linear
/// strategy whenever its starting price is positive, as the deployed
/// constants have it.
pub proof fn lemma_price_at_positive(strategy: CurveStrategy, curve: BondingCurveParams)
    requires
        strategy is Linear ==> curve.initial_price > 0,
    ensures
        spec_price_at(strategy, curve) matches Ok(price) ==> price > 0,
{
    match strategy {
        CurveStrategy::Exponential => {
            lemma_exp_price_positive(curve.total_liquidity as int);
        },
        CurveStrategy::Linear => {
            lemma_linear_price_positive(curve, 0);
        },
    }
}

/// The quoted unit price is non-decreasing in the state variable the
/// strategy reads: the currency raised for the exponential curve, the
/// units sold for the linear curve. Trading against the curve can
/// only move the quote the way the trade went.
pub proof fn lemma_price_at_monotonic(
    strategy: CurveStrategy,
    curve1: BondingCurveParams,
    curve2: BondingCurveParams,
)
    requires
        curve1.initial_price == curve2.initial_price,
        curve1.slope == curve2.slope,
        curve1.total_liquidity <= curve2.total_liquidity,
        curve1.current_supply <= curve2.current_supply,
    ensures
        spec_price_at(strategy, curve1) matches Ok(p1) ==> (spec_price_at(strategy, curve2)
            matches Ok(p2) ==> p1 <= p2),
{
    match strategy {
        CurveStrategy::Exponential => {
            lemma_exp_price_positive(curve1.total_liquidity as int);
            lemma_exp_price_positive(curve2.total_liquidity as int);
            lemma_exp_price_monotonic(
                curve1.total_liquidity as int,
                curve2.total_liquidity as int,
            );
        },
        CurveStrategy::Linear => {
            lemma_mul_nonnegative(curve1.slope as int, curve1.current_supply as int);
            lemma_mul_nonnegative(curve2.slope as int, curve2.current_supply as int);
            lemma_linear_price_supply_monotonic(curve1, curve2, 0);
        },
    }
}

/// A committed trade preserves the ledger invariants: the constants of
/// the curve are never mutated, the units sold stay below the
/// total-sale-supply threshold on a buy and never grow on a sell, and
/// the held currency respects the liquidity target under the linear
/// strategy and never grows on a sell.
pub proof fn lemma_trade_preserves_invariants(
    strategy: CurveStrategy,
    curve: BondingCurveParams,
    config: ProgramConfig,
    amount_in: u64,
    min_amount_out: u64,
    is_buy: bool,
)
    requires
        config.wf(),
    ensures
        spec_trade(strategy, curve, config, amount_in, min_amount_out, is_buy) matches Ok(t)
            ==> ({
            &&& t.0.initial_price == curve.initial_price
            &&& t.0.slope == curve.slope
            &&& t.0.liquidity_target == curve.liquidity_target
            &&& t.0.bump == curve.bump
            &&& is_buy ==> t.0.current_supply < CURVE_SUPPLY
            &&& is_buy ==> t.0.total_liquidity >= curve.total_liquidity
            &&& !is_buy ==> t.0.current_supply <= curve.current_supply
            &&& !is_buy ==> t.0.total_liquidity <= curve.total_liquidity
            &&& (strategy is Linear && is_buy) ==> t.0.total_liquidity
                <= curve.liquidity_target
        }),
{
    let denominator = crate::math::BPS_DENOMINATOR as int;
    lemma_mul_nonnegative(amount_in as int, config.trading_fee_bps as int);
    lemma_div_pos_is_pos(amount_in * config.trading_fee_bps, denominator);
    assert(amount_in * config.trading_fee_bps <= amount_in * denominator)
        by (nonlinear_arith)
        requires
            config.trading_fee_bps <= denominator,
            0 <= amount_in,
            denominator == 10_000,
    ;
    lemma_div_is_ordered(
        amount_in * config.trading_fee_bps,
        amount_in * denominator,
        denominator,
    );
    lemma_div_multiples_vanish(amount_in as int, denominator);
}

/// Round trip: quoting a buy of `currency_in` — net of the fee — and
/// immediately quoting a sell of the resulting tokens at the same
/// state yields at most `currency_in`. The curve never creates value;
/// any nonzero fee or rounding only loses more.
pub proof fn lemma_round_trip_never_gains(
    strategy: CurveStrategy,
    curve: BondingCurveParams,
    fee_bps: u16,
    currency_in: u64,
    net: u64,
    tokens: u64,
)
    requires
        fee_bps <= MAX_FEE_BPS,
        net == currency_in - fee_spec(currency_in as int, fee_bps as int),
        spec_quote_buy(strategy, curve, net) == Ok::<u64, ErrorCode>(tokens),
    ensures
        spec_quote_sell(strategy, curve, tokens) matches Ok(currency_out) ==> currency_out
            <= currency_in,
{
    lemma_mul_nonnegative(currency_in as int, fee_bps as int);
    lemma_div_pos_is_pos(currency_in * fee_bps, crate::math::BPS_DENOMINATOR as int);
    match strategy {
        CurveStrategy::Exponential => {
            let mc = curve.total_liquidity as int;
            lemma_exp_price_positive(mc);
            lemma_mul_nonnegative(net as int, crate::bonding_curve::TOKENS_PER_STEP as int);
            lemma_div_pos_is_pos(
                (net as int) * (crate::bonding_curve::TOKENS_PER_STEP as int),
                crate::bonding_curve::price_spec(mc),
            );
            lemma_exp_round_trip(mc, net as int);
            lemma_mul_nonnegative(tokens as int, crate::bonding_curve::price_spec(mc));
            lemma_div_pos_is_pos(
                (tokens as int) * crate::bonding_curve::price_spec(mc),
                crate::bonding_curve::TOKENS_PER_STEP as int,
            );
        },
        CurveStrategy::Linear => {
            let price = linear_price(curve, 0);
            lemma_mul_nonnegative(
                curve.slope as int,
                curve.current_supply as int,
            );
            lemma_mul_nonnegative(net as int, crate::math::SCALE as int);
            lemma_div_pos_is_pos((net as int) * (crate::math::SCALE as int), price);
            lemma_linear_round_trip(curve, net as int);
            lemma_mul_nonnegative(tokens as int, price);
            lemma_div_pos_is_pos((tokens as int) * price, crate::math::SCALE as int);
        },
    }
}

} // verus!
