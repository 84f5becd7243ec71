use crate::account::AccountId;
use crate::errors::ErrorCode;
use crate::fee::MAX_FEE_BPS;
use vstd::prelude::*;

verus! {

/// The process-wide admin configuration, one instance shared by every
/// market: who collects fees, who may administer, whether trading is
/// paused, and the global fee rate. The fee rate is validated at write
/// time, so readers rely on `wf()` instead of re-checking per trade.
#[derive(Clone, Copy, Debug, PartialEq, Eq, Structural)]
pub struct ProgramConfig {
    pub fee_collector: AccountId,
    pub admin: AccountId,
    pub trading_paused: bool,
    pub trading_fee_bps: u16,
}

impl ProgramConfig {
    /// The configuration invariant: the fee rate never exceeds the
    /// 1000 basis-point cap. Established at creation, preserved by
    /// every admin operation.
    pub open spec fn wf(self) -> bool {
        self.trading_fee_bps <= MAX_FEE_BPS
    }
}

/// Emitted to the external event sink after an accepted fee change.
#[derive(Clone, Copy, Debug, PartialEq, Eq, Structural)]
pub struct ConfigUpdateEvent {
    pub admin: AccountId,
    pub fee_collector: AccountId,
    pub trading_fee_bps: u16,
    pub timestamp: i64,
}

/// An instruction to the custody collaborator: move `amount` currency
/// units from `from` to `to`. The core never checks the balance behind
/// `from`; an insufficient balance surfaces as a transfer failure
/// there, not as a ledger error here.
#[derive(Clone, Copy, Debug, PartialEq, Eq, Structural)]
pub struct FeeWithdrawal {
    pub from: AccountId,
    pub to: AccountId,
    pub amount: u64,
}

/// A fresh deployment configuration: the given identities, trading
/// active, zero fee.
pub fn initialize_program_config(fee_collector: AccountId, admin: AccountId) -> (r: ProgramConfig)
    ensures
        r == (ProgramConfig { fee_collector, admin, trading_paused: false, trading_fee_bps: 0u16 }),
        r.wf(),
{
    ProgramConfig { fee_collector, admin, trading_paused: false, trading_fee_bps: 0 }
}

/// Optionally replaces the fee collector and the admin. Admin-only; an
/// absent input leaves its field unchanged; nothing else moves.
pub fn update_program_config(
    config: &mut ProgramConfig,
    caller: AccountId,
    new_fee_collector: Option<AccountId>,
    new_admin: Option<AccountId>,
) -> (r: Result<(), ErrorCode>)
    ensures
        caller != old(config).admin ==> r == Err::<(), ErrorCode>(ErrorCode::Unauthorized)
            && *final(config) == *old(config),
        caller == old(config).admin ==> r == Ok::<(), ErrorCode>(()),
        caller == old(config).admin ==> (new_fee_collector matches Some(fc)
            ==> final(config).fee_collector == fc),
        caller == old(config).admin && new_fee_collector is None ==> final(config).fee_collector
            == old(config).fee_collector,
        caller == old(config).admin ==> (new_admin matches Some(a)
            ==> final(config).admin == a),
        caller == old(config).admin && new_admin is None
            ==> final(config).admin == old(config).admin,
        final(config).trading_paused == old(config).trading_paused,
        final(config).trading_fee_bps == old(config).trading_fee_bps,
{
    if !(caller == config.admin) {
        return Err(ErrorCode::Unauthorized);
    }
    if let Some(fee_collector) = new_fee_collector {
        config.fee_collector = fee_collector;
    }
    if let Some(admin) = new_admin {
        config.admin = admin;
    }
    Ok(())
}

/// Pauses all trading. Admin-only and idempotent: pausing an already
/// paused market is a no-op success.
pub fn pause_trading(config: &mut ProgramConfig, caller: AccountId) -> (r: Result<(), ErrorCode>)
    ensures
        caller != old(config).admin ==> r == Err::<(), ErrorCode>(ErrorCode::Unauthorized)
            && *final(config) == *old(config),
        caller == old(config).admin ==> r == Ok::<(), ErrorCode>(()) && *final(config) == (
        ProgramConfig { trading_paused: true, ..*old(config) }),
{
    if !(caller == config.admin) {
        return Err(ErrorCode::Unauthorized);
    }
    config.trading_paused = true;
    Ok(())
}

/// Resumes trading. Admin-only and idempotent; no market state is
/// touched, so trading continues exactly where it stopped.
pub fn resume_trading(config: &mut ProgramConfig, caller: AccountId) -> (r: Result<(), ErrorCode>)
    ensures
        caller != old(config).admin ==> r == Err::<(), ErrorCode>(ErrorCode::Unauthorized)
            && *final(config) == *old(config),
        caller == old(config).admin ==> r == Ok::<(), ErrorCode>(()) && *final(config) == (
        ProgramConfig { trading_paused: false, ..*old(config) }),
{
    if !(caller == config.admin) {
        return Err(ErrorCode::Unauthorized);
    }
    config.trading_paused = false;
    Ok(())
}

/// Sets the global trading fee. Admin-only; a rate above the cap is
/// rejected with `InvalidFeePercentage` and nothing moves; an accepted
/// rate is stored and reported in a configuration-change event.
pub fn update_trading_fee(
    config: &mut ProgramConfig,
    caller: AccountId,
    new_fee_bps: u16,
    timestamp: i64,
) -> (r: Result<ConfigUpdateEvent, ErrorCode>)
    ensures
        caller != old(config).admin ==> r == Err::<ConfigUpdateEvent, ErrorCode>(
            ErrorCode::Unauthorized,
        ) && *final(config) == *old(config),
        caller == old(config).admin && new_fee_bps > MAX_FEE_BPS ==> r == Err::<
            ConfigUpdateEvent,
            ErrorCode,
        >(ErrorCode::InvalidFeePercentage) && *final(config) == *old(config),
        caller == old(config).admin && new_fee_bps <= MAX_FEE_BPS ==> *final(config) == (
        ProgramConfig { trading_fee_bps: new_fee_bps, ..*old(config) }) && r == Ok::<
            ConfigUpdateEvent,
            ErrorCode,
        >(
            (ConfigUpdateEvent {
                admin: old(config).admin,
                fee_collector: old(config).fee_collector,
                trading_fee_bps: new_fee_bps,
                timestamp,
            }),
        ),
        caller == old(config).admin && new_fee_bps <= MAX_FEE_BPS ==> final(config).wf(),
{
    if !(caller == config.admin) {
        return Err(ErrorCode::Unauthorized);
    }
    if new_fee_bps > MAX_FEE_BPS {
        return Err(ErrorCode::InvalidFeePercentage);
    }
    config.trading_fee_bps = new_fee_bps;
    Ok(
        ConfigUpdateEvent {
            admin: config.admin,
            fee_collector: config.fee_collector,
            trading_fee_bps: new_fee_bps,
            timestamp,
        },
    )
}

/// Admin-only withdrawal of collected fees: returns the transfer the
/// custody collaborator must perform, from the fee collector to the
/// admin. The collector's balance is the collaborator's concern.
pub fn withdraw_fees(config: &ProgramConfig, caller: AccountId, amount: u64) -> (r: Result<
    FeeWithdrawal,
    ErrorCode,
>)
    ensures
        caller != config.admin ==> r == Err::<FeeWithdrawal, ErrorCode>(ErrorCode::Unauthorized),
        caller == config.admin ==> r == Ok::<FeeWithdrawal, ErrorCode>(
            (FeeWithdrawal { from: config.fee_collector, to: caller, amount }),
        ),
{
    if !(caller == config.admin) {
        return Err(ErrorCode::Unauthorized);
    }
    Ok(FeeWithdrawal { from: config.fee_collector, to: caller, amount })
}

} // verus!
