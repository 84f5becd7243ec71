use pump_fun::account::AccountId;
use pump_fun::bonding_curve::CURVE_SUPPLY;
use pump_fun::config::{initialize_program_config, pause_trading, resume_trading, ProgramConfig};
use pump_fun::errors::ErrorCode;
use pump_fun::state::BondingCurveParams;
use pump_fun::trade::{price_at, quote_buy, quote_sell, trade_token, CurveStrategy};

fn acct(tag: u128) -> AccountId {
    AccountId { hi: tag, lo: tag.wrapping_mul(7) }
}

fn config_with_fee(fee_bps: u16) -> ProgramConfig {
    let mut c = initialize_program_config(acct(1), acct(2));
    c.trading_fee_bps = fee_bps;
    c
}

fn fresh_linear_curve() -> BondingCurveParams {
    BondingCurveParams {
        initial_price: 1_000_000,
        slope: 100,
        liquidity_target: 17_000_000_000,
        current_supply: 0,
        total_liquidity: 0,
        bump: 254,
    }
}

#[test]
fn linear_buy_scenario_with_one_percent_fee() {
    let config = config_with_fee(100);
    let mut curve = fresh_linear_curve();
    let r = trade_token(
        &mut curve,
        &config,
        CurveStrategy::Linear,
        acct(10),
        acct(11),
        10_000_000,
        0,
        true,
        1_700_000_000,
    );
    let outcome = r.unwrap();
    assert_eq!(outcome.fee_amount, 100_000);
    assert_eq!(outcome.amount_after_fee, 9_900_000);
    // At unit price 1_000_000 the net 9_900_000 buys
    // 9_900_000 * 1_000_000 / 1_000_000 token units.
    assert_eq!(outcome.amount_out, 9_900_000);
    assert_eq!(outcome.event.amount_in, 10_000_000);
    assert_eq!(outcome.event.amount_out, 9_900_000);
    assert!(outcome.event.is_buy);
    assert_eq!(outcome.event.user, acct(10));
    assert_eq!(outcome.event.token_mint, acct(11));
    assert_eq!(outcome.event.timestamp, 1_700_000_000);
    assert_eq!(curve.current_supply, 9_900_000);
    assert_eq!(curve.total_liquidity, 9_900_000);
}

#[test]
fn buy_crossing_graduation_threshold_is_rejected() {
    let config = config_with_fee(0);
    let mut curve = fresh_linear_curve();
    curve.current_supply = CURVE_SUPPLY - 1;
    let before = curve;
    let r = trade_token(
        &mut curve,
        &config,
        CurveStrategy::Exponential,
        acct(10),
        acct(11),
        1_000_000,
        0,
        true,
        7,
    );
    assert_eq!(r, Err(ErrorCode::GraduationReached));
    assert_eq!(curve, before);
}

#[test]
fn buy_exactly_reaching_threshold_is_rejected() {
    let config = config_with_fee(0);
    let mut curve = fresh_linear_curve();
    // Slope zero keeps the unit price at exactly 1.0, so a net buy of
    // n currency units yields n token units and this buy would land
    // exactly on the threshold.
    curve.slope = 0;
    curve.current_supply = CURVE_SUPPLY - 1_000_000;
    curve.liquidity_target = u64::MAX;
    let before = curve;
    let r = trade_token(
        &mut curve,
        &config,
        CurveStrategy::Linear,
        acct(10),
        acct(11),
        1_000_000,
        0,
        true,
        7,
    );
    assert_eq!(r, Err(ErrorCode::GraduationReached));
    assert_eq!(curve, before);
}

#[test]
fn sell_beyond_held_liquidity_is_rejected() {
    let config = config_with_fee(100);
    let mut curve = fresh_linear_curve();
    curve.current_supply = 100_000_000_000_000;
    curve.total_liquidity = 0;
    let before = curve;
    let r = trade_token(
        &mut curve,
        &config,
        CurveStrategy::Exponential,
        acct(10),
        acct(11),
        10_000_000_000_000,
        0,
        false,
        7,
    );
    assert_eq!(r, Err(ErrorCode::InsufficientLiquidity));
    assert_eq!(curve, before);
}

#[test]
fn sell_of_more_units_than_sold_is_rejected() {
    let config = config_with_fee(0);
    let mut curve = fresh_linear_curve();
    // Slope zero keeps the unit price at exactly 1.0.
    curve.slope = 0;
    curve.current_supply = 5;
    curve.total_liquidity = 1_000_000;
    let before = curve;
    let r = trade_token(
        &mut curve,
        &config,
        CurveStrategy::Linear,
        acct(10),
        acct(11),
        10,
        0,
        false,
        7,
    );
    assert_eq!(r, Err(ErrorCode::Overflow));
    assert_eq!(curve, before);
}

#[test]
fn slippage_bound_is_enforced() {
    let config = config_with_fee(100);
    let mut curve = fresh_linear_curve();
    let before = curve;
    let r = trade_token(
        &mut curve,
        &config,
        CurveStrategy::Linear,
        acct(10),
        acct(11),
        10_000_000,
        u64::MAX,
        true,
        7,
    );
    assert_eq!(r, Err(ErrorCode::SlippageExceeded));
    assert_eq!(curve, before);
}

#[test]
fn paused_market_rejects_trades_and_resume_restores() {
    let admin = acct(2);
    let mut config = initialize_program_config(acct(1), admin);
    assert_eq!(pause_trading(&mut config, admin), Ok(()));
    assert!(config.trading_paused);

    let mut curve = fresh_linear_curve();
    let before = curve;
    for is_buy in [true, false] {
        let r = trade_token(
            &mut curve,
            &config,
            CurveStrategy::Linear,
            acct(10),
            acct(11),
            1_000_000,
            0,
            is_buy,
            7,
        );
        assert_eq!(r, Err(ErrorCode::TradingPaused));
        assert_eq!(curve, before);
    }

    assert_eq!(resume_trading(&mut config, admin), Ok(()));
    assert!(!config.trading_paused);
    assert_eq!(curve, before);
    let r = trade_token(
        &mut curve,
        &config,
        CurveStrategy::Linear,
        acct(10),
        acct(11),
        1_000_000,
        0,
        true,
        7,
    );
    assert!(r.is_ok());
    assert_eq!(curve.current_supply, 1_000_000);
    assert_eq!(curve.total_liquidity, 1_000_000);
}

#[test]
fn sell_fee_comes_out_of_proceeds() {
    let config = config_with_fee(100);
    let mut curve = fresh_linear_curve();
    curve.slope = 0;
    curve.current_supply = 10_000_000;
    curve.total_liquidity = 10_000_000;
    let r = trade_token(
        &mut curve,
        &config,
        CurveStrategy::Linear,
        acct(10),
        acct(11),
        1_000_000,
        0,
        false,
        7,
    );
    let outcome = r.unwrap();
    // Gross proceeds at unit price 1.0 are 1_000_000; the one-percent
    // fee is taken out of them.
    assert_eq!(outcome.amount_out, 1_000_000);
    assert_eq!(outcome.fee_amount, 10_000);
    assert_eq!(outcome.amount_after_fee, 990_000);
    assert_eq!(outcome.event.amount_out, 990_000);
    assert!(!outcome.event.is_buy);
    // The curve pays out the gross amount and burns the units sold.
    assert_eq!(curve.current_supply, 9_000_000);
    assert_eq!(curve.total_liquidity, 9_000_000);
}

#[test]
fn quote_interface_matches_strategy_backends() {
    let curve = fresh_linear_curve();
    assert_eq!(price_at(CurveStrategy::Linear, curve), Ok(1_000_000));
    assert_eq!(price_at(CurveStrategy::Exponential, curve), Ok(601_500_000));
    assert_eq!(
        quote_buy(CurveStrategy::Linear, curve, 9_900_000),
        Ok(9_900_000)
    );
    let exp_tokens = quote_buy(CurveStrategy::Exponential, curve, 1_000_000).unwrap();
    let expected = ((1_000_000u128 * 10_000_000_000_000u128) / 601_500_000u128) as u64;
    assert_eq!(exp_tokens, expected);
    let back = quote_sell(CurveStrategy::Exponential, curve, exp_tokens).unwrap();
    assert!(back <= 1_000_000);
}

#[test]
fn buy_then_sell_quote_at_same_state_never_gains() {
    let currency_in = 10_000_000u64;
    for fee_bps in [0u16, 100, 1000] {
        for strategy in [CurveStrategy::Linear, CurveStrategy::Exponential] {
            let mut curve = fresh_linear_curve();
            // Held currency so the sell quote's liquidity guard does
            // not cut the round trip short.
            curve.total_liquidity = 1_000_000_000;
            let (fee, net) = pump_fun::fee::compute_fee(currency_in, fee_bps);
            assert_eq!(fee + net, currency_in);
            let tokens = quote_buy(strategy, curve, net).unwrap();
            let back = quote_sell(strategy, curve, tokens).unwrap();
            assert!(back <= currency_in);
            if fee_bps == 0 {
                // With no fee and the unit price exactly 1.0 (linear at
                // zero supply) the round trip is lossless.
                if matches!(strategy, CurveStrategy::Linear) {
                    assert_eq!(back, currency_in);
                }
            }
        }
    }
}
