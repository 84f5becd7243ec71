//! A continuously priced token sale — a bonding-curve market maker.
//!
//! Buyers and sellers exchange a base currency for a sale token at a
//! price that is a deterministic function of the market state alone:
//! no order book, no counterparty matching. Two curve strategies
//! stand behind one interface — an exponential curve driven by the
//! currency raised and a linear curve driven by the units sold — and
//! one trading ledger applies the fee policy, the slippage bound, the
//! liquidity invariants and the total-sale-supply stop around them.
//!
//! Every amount is a scaled integer and every arithmetic step either
//! succeeds exactly or fails closed with an explicit error: nothing
//! saturates, nothing is clamped, and a rejected operation never
//! leaves a partial state change. Account custody, token minting and
//! burning, and event delivery belong to external collaborators; the
//! ledger only hands them exact instructions once every check has
//! passed.

pub mod account;
pub mod bonding_curve;
pub mod config;
pub mod errors;
pub mod fee;
pub mod math;
pub mod state;
pub mod trade;
