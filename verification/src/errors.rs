use vstd::prelude::*;

verus! {

/// Every failure that the pricing engine, the trading ledger and the
/// admin configuration can report. Callers branch on the variant: a
/// slippage failure is routinely retried with adjusted bounds, a pause
/// failure is not.
#[derive(Clone, Copy, Debug, PartialEq, Eq, Structural)]
pub enum ErrorCode {
    /// A token name longer than 32 bytes.
    NameTooLong,
    /// A token symbol longer than 10 bytes.
    SymbolTooLong,
    /// The caller is not the configured admin.
    Unauthorized,
    /// An arithmetic step overflowed or underflowed; the operation is
    /// rejected with no partial state change.
    Overflow,
    /// The counter-amount fell short of the caller's minimum.
    SlippageExceeded,
    /// A buy would raise the held currency past the liquidity target.
    LiquidityTargetExceeded,
    /// A sell's currency payout exceeds the currency the curve holds.
    InsufficientLiquidity,
    /// A unit price of zero made a quote impossible.
    CalculationError,
    /// A buy would push the units sold to or past the total-sale-supply
    /// threshold; the curve is retired instead of filling it.
    GraduationReached,
    /// Trading is administratively paused.
    TradingPaused,
    /// A fee rate above the 1000 basis-point cap.
    InvalidFeePercentage,
    /// An admin identity that the configuration refuses.
    InvalidAdminAddress,
}

} // verus!
