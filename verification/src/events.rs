//! What an instruction reports when it succeeds.

use crate::accounts::Pubkey;
use vstd::prelude::*;

verus! {

/// The oracle's baseline was updated.
#[derive(Clone, Copy, Debug, PartialEq, Eq)]
pub struct OracleUpdateEvent {
    pub oracle: Pubkey,
    pub admin: Pubkey,
    pub baseline_bps: u16,
    pub valid_until_ts: i64,
    pub ts: i64,
}

/// Funding was applied for one period or more.
#[derive(Clone, Copy, Debug, PartialEq, Eq)]
pub struct FundingAppliedEvent {
    pub market: Pubkey,
    /// Seconds of the periods applied.
    pub dt: i64,
    /// The rate of each period.
    pub rate_q64: i128,
    pub funding_index: i128,
    pub mark_q64: i128,
    pub index_q64: i128,
    pub ts: i64,
}

/// A margin account was partially liquidated.
#[derive(Clone, Copy, Debug, PartialEq, Eq)]
pub struct LiquidationEvent {
    pub market: Pubkey,
    pub user: Pubkey,
    pub liquidator: Pubkey,
    pub closed_base: i128,
    pub closed_notional_usdc: u64,
    pub fee_usdc: u64,
    pub equity_before: i128,
    pub equity_after: i128,
    pub ts: i64,
}

/// A position was changed by a trade.
#[derive(Clone, Copy, Debug, PartialEq, Eq)]
pub struct TradeEvent {
    pub market: Pubkey,
    pub user: Pubkey,
    pub side: u8,
    pub base_delta: i128,
    pub exec_price_q64: i128,
    pub fee_usdc: u64,
    pub mark_before_q64: i128,
    pub mark_after_q64: i128,
    pub ts: i64,
}

/// Collateral was deposited.
#[derive(Clone, Copy, Debug, PartialEq, Eq)]
pub struct DepositEvent {
    pub market: Pubkey,
    pub user: Pubkey,
    pub amount_usdc: u64,
    pub ts: i64,
}

/// Collateral was withdrawn.
#[derive(Clone, Copy, Debug, PartialEq, Eq)]
pub struct WithdrawEvent {
    pub market: Pubkey,
    pub user: Pubkey,
    pub amount_usdc: u64,
    pub ts: i64,
}

/// A liquidation left debt that the insurance fund did not cover.
#[derive(Clone, Copy, Debug, PartialEq, Eq)]
pub struct BadDebtEvent {
    pub market: Pubkey,
    pub user: Pubkey,
    pub debt_usdc: u64,
    pub covered_usdc: u64,
    pub ts: i64,
}

} // verus!
