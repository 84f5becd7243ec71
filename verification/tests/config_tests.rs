use pump_fun::account::AccountId;
use pump_fun::config::{
    initialize_program_config, pause_trading, resume_trading, update_program_config,
    update_trading_fee, withdraw_fees, FeeWithdrawal,
};
use pump_fun::errors::ErrorCode;
use pump_fun::state::{create_token, BondingCurveParams};

fn acct(tag: u128) -> AccountId {
    AccountId { hi: tag, lo: tag.wrapping_add(99) }
}

#[test]
fn initialize_sets_identities_and_defaults() {
    let config = initialize_program_config(acct(1), acct(2));
    assert_eq!(config.fee_collector, acct(1));
    assert_eq!(config.admin, acct(2));
    assert!(!config.trading_paused);
    assert_eq!(config.trading_fee_bps, 0);
}

#[test]
fn fee_above_cap_is_rejected_and_cap_itself_accepted() {
    let admin = acct(2);
    let mut config = initialize_program_config(acct(1), admin);
    assert_eq!(
        update_trading_fee(&mut config, admin, 1001, 7),
        Err(ErrorCode::InvalidFeePercentage)
    );
    assert_eq!(config.trading_fee_bps, 0);

    let event = update_trading_fee(&mut config, admin, 1000, 8).unwrap();
    assert_eq!(config.trading_fee_bps, 1000);
    assert_eq!(event.trading_fee_bps, 1000);
    assert_eq!(event.admin, admin);
    assert_eq!(event.fee_collector, acct(1));
    assert_eq!(event.timestamp, 8);
}

#[test]
fn fee_update_is_admin_only() {
    let mut config = initialize_program_config(acct(1), acct(2));
    assert_eq!(
        update_trading_fee(&mut config, acct(3), 50, 7),
        Err(ErrorCode::Unauthorized)
    );
    assert_eq!(config.trading_fee_bps, 0);
}

#[test]
fn pause_and_resume_are_admin_only_and_idempotent() {
    let admin = acct(2);
    let mut config = initialize_program_config(acct(1), admin);
    assert_eq!(
        pause_trading(&mut config, acct(9)),
        Err(ErrorCode::Unauthorized)
    );
    assert!(!config.trading_paused);

    assert_eq!(pause_trading(&mut config, admin), Ok(()));
    assert!(config.trading_paused);
    // Pausing an already paused market is a no-op success.
    assert_eq!(pause_trading(&mut config, admin), Ok(()));
    assert!(config.trading_paused);

    assert_eq!(
        resume_trading(&mut config, acct(9)),
        Err(ErrorCode::Unauthorized)
    );
    assert!(config.trading_paused);
    assert_eq!(resume_trading(&mut config, admin), Ok(()));
    assert!(!config.trading_paused);
    assert_eq!(resume_trading(&mut config, admin), Ok(()));
    assert!(!config.trading_paused);
}

#[test]
fn config_update_replaces_only_what_is_given() {
    let admin = acct(2);
    let mut config = initialize_program_config(acct(1), admin);

    assert_eq!(
        update_program_config(&mut config, acct(9), Some(acct(5)), None),
        Err(ErrorCode::Unauthorized)
    );
    assert_eq!(config.fee_collector, acct(1));

    assert_eq!(
        update_program_config(&mut config, admin, Some(acct(5)), None),
        Ok(())
    );
    assert_eq!(config.fee_collector, acct(5));
    assert_eq!(config.admin, admin);

    assert_eq!(
        update_program_config(&mut config, admin, None, Some(acct(6))),
        Ok(())
    );
    assert_eq!(config.fee_collector, acct(5));
    assert_eq!(config.admin, acct(6));

    // The old admin lost its authority with the handover.
    assert_eq!(
        update_program_config(&mut config, admin, None, None),
        Err(ErrorCode::Unauthorized)
    );
}

#[test]
fn withdraw_fees_builds_the_transfer_for_the_admin_only() {
    let admin = acct(2);
    let config = initialize_program_config(acct(1), admin);
    assert_eq!(
        withdraw_fees(&config, acct(9), 500),
        Err(ErrorCode::Unauthorized)
    );
    assert_eq!(
        withdraw_fees(&config, admin, 500),
        Ok(FeeWithdrawal { from: acct(1), to: admin, amount: 500 })
    );
}

#[test]
fn create_token_validates_lengths() {
    let r = create_token(
        "a".repeat(33),
        "SYM".to_string(),
        "d".to_string(),
        "u".to_string(),
        acct(3),
        7,
        255,
    );
    assert_eq!(r.unwrap_err(), ErrorCode::NameTooLong);

    let r = create_token(
        "a".repeat(32),
        "s".repeat(11),
        "d".to_string(),
        "u".to_string(),
        acct(3),
        7,
        255,
    );
    assert_eq!(r.unwrap_err(), ErrorCode::SymbolTooLong);
}

#[test]
fn create_token_returns_metadata_and_fresh_curve() {
    let (metadata, params) = create_token(
        "My Token".to_string(),
        "MTK".to_string(),
        "a token".to_string(),
        "https://example.invalid/t.png".to_string(),
        acct(3),
        1_700_000_000,
        250,
    )
    .unwrap();
    assert_eq!(metadata.name, "My Token");
    assert_eq!(metadata.symbol, "MTK");
    assert_eq!(metadata.description, "a token");
    assert_eq!(metadata.image_url, "https://example.invalid/t.png");
    assert_eq!(metadata.creator, acct(3));
    assert_eq!(metadata.creation_time, 1_700_000_000);
    assert_eq!(
        params,
        BondingCurveParams {
            initial_price: 1_000_000,
            slope: 100,
            liquidity_target: 17_000_000_000,
            current_supply: 0,
            total_liquidity: 0,
            bump: 250,
        }
    );
}
