//! Partial liquidation of margin accounts below their maintenance requirement.

use crate::accounts;
use crate::accounts::Pubkey;
use crate::accounts::TokenAccount;
use crate::accounts::TokenSlot;
use crate::accounts::TokenTransfer;
use crate::accounts::TransferAuthority;
use crate::error;
use crate::error::TariffError;
use crate::events::BadDebtEvent;
use crate::events::LiquidationEvent;
use crate::margin;
use crate::margin::MarginAccount;
use crate::market;
use crate::market::Swap;
use crate::market::TariffPerpMarket;
use crate::math;
use crate::math::BPS_DENOM_I128;
use crate::math::Q64;
use crate::oracle::TariffOracle;
use crate::pyth;
use crate::pyth::PriceFeed;
use crate::pyth::PythFeedAccount;
use crate::trading;
use vstd::prelude::*;

verus! {

/// The part of a position that one liquidation closes, in basis points.
pub const LIQUIDATION_FRACTION_BPS: i128 = 2_000;

/// The accounts of `liquidate`.
#[derive(Clone, Debug, PartialEq, Eq)]
pub struct Liquidate {
    pub liquidator: Pubkey,
    pub oracle_key: Pubkey,
    pub oracle: TariffOracle,
    pub market_key: Pubkey,
    pub market: TariffPerpMarket,
    /// The margin account to liquidate.
    pub user_margin: MarginAccount,
    pub pyth_feed: PythFeedAccount,
    pub vault_authority: Pubkey,
    pub insurance_authority: Pubkey,
    pub vault_usdc: TokenAccount,
    pub insurance_vault_usdc: TokenAccount,
    pub liquidator_usdc: TokenAccount,
}

/// What a liquidation reports, and the tokens to move, in this order.
#[derive(Clone, Copy, Debug, PartialEq, Eq)]
pub struct LiquidationOutcome {
    pub event: LiquidationEvent,
    /// Debt that the insurance fund left uncovered.
    pub bad_debt: Option<BadDebtEvent>,
    /// The liquidator's part of the fee.
    pub liquidator_transfer: Option<TokenTransfer>,
    /// The insurance fund's part of the fee.
    pub insurance_transfer: Option<TokenTransfer>,
    /// What the insurance fund pays of the debt.
    pub cover_transfer: Option<TokenTransfer>,
}

/// How much of a position one liquidation closes: the liquidation fraction, rounded down, and at
/// least the smallest unit.
pub open spec fn close_size(pos: int) -> int {
    let part = math::magnitude(pos) * LIQUIDATION_FRACTION_BPS / (BPS_DENOM_I128 as int);
    if part < 1 {
        1
    } else {
        part
    }
}

/// The change of the position that one liquidation makes.
pub open spec fn close_delta(pos: int) -> int {
    if pos > 0 {
        -close_size(pos)
    } else {
        close_size(pos)
    }
}

/// The equity below which an account can be liquidated.
pub open spec fn maintenance_requirement(market: TariffPerpMarket, margin: MarginAccount) -> int {
    math::bps_of(margin.notional(market), market.maintenance_margin_bps as int)
}

/// What the closed part is worth at the swap's price.
pub open spec fn closed_notional(market: TariffPerpMarket, pos: int) -> int {
    math::usdc_value(close_size(pos), market.swap_price(close_delta(pos)))
}

/// The liquidation fee: the fee rate on the closed part only.
pub open spec fn liquidation_fee(market: TariffPerpMarket, pos: int) -> int {
    math::bps_of(closed_notional(market, pos), market.liquidation_fee_bps as int)
}

/// The margin account with part of its position closed at the swap's price.
pub open spec fn partly_closed(market: TariffPerpMarket, margin: MarginAccount) -> MarginAccount {
    let delta = close_delta(margin.position_base as int);
    margin.after_trade(market.swap_price(delta), delta)
}

/// The fee that is charged: the liquidation fee, as far as there is collateral.
pub open spec fn fee_paid(market: TariffPerpMarket, margin: MarginAccount) -> int {
    math::least(
        partly_closed(market, margin).collateral_usdc as int,
        liquidation_fee(market, margin.position_base as int),
    )
}

/// The liquidator's part of a fee: half of it, rounded down.
pub open spec fn liquidator_part(fee: int) -> int {
    fee / 2
}

/// The insurance fund's part of a fee: what the liquidator does not get.
pub open spec fn insurance_part(fee: int) -> int {
    fee - liquidator_part(fee)
}

/// The market after the liquidation.
pub open spec fn liquidated_market(
    market: TariffPerpMarket,
    margin: MarginAccount,
) -> TariffPerpMarket {
    let pos = margin.position_base as int;
    trading::traded_market(market, pos, close_delta(pos))
}

/// The margin account with the fee charged, before its debt is looked at.
pub open spec fn fee_charged(market: TariffPerpMarket, margin: MarginAccount) -> MarginAccount {
    let moved = partly_closed(market, margin);
    MarginAccount {
        collateral_usdc: (moved.collateral_usdc - fee_paid(market, margin)) as u64,
        ..moved
    }
}

/// What the account owes beyond its collateral once the fee is charged.
pub open spec fn debt(market: TariffPerpMarket, margin: MarginAccount) -> int {
    let equity = fee_charged(market, margin).equity(liquidated_market(market, margin));
    if equity < 0 {
        -equity
    } else {
        0
    }
}

/// What the insurance fund pays of the debt: no more than it holds, and no more than its cap.
pub open spec fn cover(
    market: TariffPerpMarket,
    margin: MarginAccount,
    insurance_balance: int,
) -> int {
    math::least(
        math::least(insurance_balance, debt(market, margin)),
        market.max_insurance_payout_per_liq_usdc as int,
    )
}

/// The margin account after the liquidation: one that is in debt has no collateral left.
pub open spec fn liquidated_margin(
    market: TariffPerpMarket,
    margin: MarginAccount,
) -> MarginAccount {
    if debt(market, margin) > 0 {
        MarginAccount { collateral_usdc: 0, ..fee_charged(market, margin) }
    } else {
        fee_charged(market, margin)
    }
}

/// When an account is not below its maintenance requirement.
pub open spec fn liquidatable_refusal(
    market: TariffPerpMarket,
    margin: MarginAccount,
) -> Option<TariffError> {
    if margin.equity_refusal(market) is Some {
        margin.equity_refusal(market)
    } else if margin.equity(market) >= maintenance_requirement(market, margin) {
        Some(TariffError::NotLiquidatable)
    } else {
        None
    }
}

/// When part of a position cannot be closed.
pub open spec fn close_part_refusal(
    market: TariffPerpMarket,
    margin: MarginAccount,
) -> Option<TariffError> {
    let pos = margin.position_base as int;
    let delta = close_delta(pos);
    let price = market.swap_price(delta);
    if !math::in_i128(math::magnitude(pos) * LIQUIDATION_FRACTION_BPS) {
        Some(TariffError::MathOverflow)
    } else if market.risk_refusal(pos, pos + delta) is Some {
        market.risk_refusal(pos, pos + delta)
    } else if market.swap_refusal(delta) is Some {
        market.swap_refusal(delta)
    } else if margin.trade_refusal(price, delta) is Some {
        margin.trade_refusal(price, delta)
    } else {
        error::overflow_unless(math::in_i128(close_size(pos) * price))
    }
}

/// When an account, with funding settled, cannot be liquidated in a market.
pub open spec fn close_out_refusal(
    market: TariffPerpMarket,
    margin: MarginAccount,
) -> Option<TariffError> {
    if liquidatable_refusal(market, margin) is Some {
        liquidatable_refusal(market, margin)
    } else if close_part_refusal(market, margin) is Some {
        close_part_refusal(market, margin)
    } else {
        fee_charged(market, margin).equity_refusal(liquidated_market(market, margin))
    }
}

/// When an account cannot be liquidated.
pub open spec fn liquidate_refusal(
    ctx: Liquidate,
    feed: Option<PriceFeed>,
    now: i64,
) -> Option<TariffError> {
    let gate = pyth::gate_refusal(ctx.market, ctx.oracle, ctx.pyth_feed.key, feed, now);
    let vaults = accounts::vaults_refusal(
        ctx.vault_usdc,
        ctx.vault_authority,
        ctx.insurance_vault_usdc,
        ctx.insurance_authority,
        ctx.market.usdc_mint,
    );
    let market = pyth::after_feed(ctx.market, feed);
    if ctx.market.oracle != ctx.oracle_key {
        Some(TariffError::InvalidOracle)
    } else if ctx.user_margin.market != ctx.market_key {
        Some(TariffError::InvalidMarket)
    } else if ctx.market.paused {
        Some(TariffError::Paused)
    } else if gate is Some {
        gate
    } else if vaults is Some {
        vaults
    } else if ctx.liquidator_usdc.mint != ctx.market.usdc_mint {
        Some(TariffError::InvalidMint)
    } else if ctx.user_margin.funding_refusal(market) is Some {
        ctx.user_margin.funding_refusal(market)
    } else {
        close_out_refusal(market, ctx.user_margin.after_funding(market))
    }
}

/// The accounts after the liquidation.
pub open spec fn liquidated(ctx: Liquidate, feed: Option<PriceFeed>) -> Liquidate {
    let market = pyth::after_feed(ctx.market, feed);
    let margin = ctx.user_margin.after_funding(market);
    Liquidate {
        market: liquidated_market(market, margin),
        user_margin: liquidated_margin(market, margin),
        ..ctx
    }
}

/// What the liquidation reports, and what it moves.
pub open spec fn liquidation_outcome(
    ctx: Liquidate,
    feed: Option<PriceFeed>,
    now: i64,
) -> LiquidationOutcome {
    let market = pyth::after_feed(ctx.market, feed);
    let margin = ctx.user_margin.after_funding(market);
    let pos = margin.position_base as int;
    let fee = fee_paid(market, margin);
    let owed = debt(market, margin);
    let covered = cover(market, margin, ctx.insurance_vault_usdc.amount as int);
    LiquidationOutcome {
        event: LiquidationEvent {
            market: ctx.market_key,
            user: ctx.user_margin.owner,
            liquidator: ctx.liquidator,
            closed_base: close_size(pos) as i128,
            closed_notional_usdc: closed_notional(market, pos) as u64,
            fee_usdc: fee as u64,
            equity_before: margin.equity(market) as i128,
            equity_after: liquidated_margin(market, margin).equity(
                liquidated_market(market, margin),
            ) as i128,
            ts: now,
        },
        bad_debt: if covered < owed {
            Some(
                BadDebtEvent {
                    market: ctx.market_key,
                    user: ctx.user_margin.owner,
                    debt_usdc: owed as u64,
                    covered_usdc: covered as u64,
                    ts: now,
                },
            )
        } else {
            None
        },
        liquidator_transfer: accounts::transfer_of(
            TokenSlot::Vault,
            TokenSlot::Liquidator,
            TransferAuthority::Vault,
            liquidator_part(fee) as u64,
        ),
        insurance_transfer: accounts::transfer_of(
            TokenSlot::Vault,
            TokenSlot::InsuranceVault,
            TransferAuthority::Vault,
            insurance_part(fee) as u64,
        ),
        cover_transfer: accounts::transfer_of(
            TokenSlot::InsuranceVault,
            TokenSlot::Vault,
            TransferAuthority::Insurance,
            covered as u64,
        ),
    }
}

/// The amounts of one liquidation.
#[derive(Clone, Copy, Debug, PartialEq, Eq, Structural)]
pub struct CloseOut {
    pub closed_base: i128,
    pub closed_notional_usdc: u64,
    pub fee_usdc: u64,
    pub debt_usdc: u64,
    pub cover_usdc: u64,
    pub equity_before: i128,
    pub equity_after: i128,
}

/// The part of a position that a liquidation closed.
#[derive(Clone, Copy, Debug, PartialEq, Eq, Structural)]
pub struct ClosedPart {
    pub closed_base: i128,
    pub closed_notional_usdc: u64,
    /// The whole liquidation fee on the closed part.
    pub fee_usdc: u64,
}

/// The equity of an account below its maintenance requirement.
pub fn require_liquidatable(market: &TariffPerpMarket, margin: &MarginAccount) -> (res: Result<
    i128,
    TariffError,
>)
    ensures
        error::amount_outcome(
            res,
            liquidatable_refusal(*market, *margin),
            margin.equity(*market),
        ),
        res is Ok ==> margin.position_base != 0,
{
    let (equity, notional): (i128, i128) = margin::compute_equity_and_notional_usdc(
        market,
        margin,
    )?;
    proof {
        math::lemma_usdc_value_range(
            math::magnitude(margin.position_base as int),
            market.mark(),
        );
        math::lemma_bps_of_fits(notional as int, market.maintenance_margin_bps);
        if margin.position_base == 0 {
            lemma_flat_account_is_safe(*market, *margin);
        }
    }
    let required: i128 = math::amount_bps(notional, market.maintenance_margin_bps)?;
    if equity >= required {
        return Err(TariffError::NotLiquidatable);
    }
    Ok(equity)
}

/// Closes part of a position at the swap's price.
fn close_part(market: &mut TariffPerpMarket, margin: &mut MarginAccount) -> (res: Result<
    ClosedPart,
    TariffError,
>)
    requires
        old(margin).position_base != 0,
    ensures
        match close_part_refusal(*old(market), *old(margin)) {
            Some(e) => {
                &&& res == Err::<ClosedPart, TariffError>(e)
                &&& *final(market) == *old(market)
                &&& *final(margin) == *old(margin)
            },
            None => {
                let pos = old(margin).position_base as int;
                &&& res is Ok
                &&& res->Ok_0.closed_base == close_size(pos)
                &&& res->Ok_0.closed_notional_usdc == closed_notional(*old(market), pos)
                &&& res->Ok_0.fee_usdc == liquidation_fee(*old(market), pos)
                &&& *final(market) == liquidated_market(*old(market), *old(margin))
                &&& *final(margin) == partly_closed(*old(market), *old(margin))
            },
        },
{
    let pos: i128 = margin.position_base;
    proof {
        lemma_close_size(pos as int);
    }
    let abs_pos: i128 = math::i128_abs(pos)?;
    let scaled: i128 = abs_pos.checked_mul(LIQUIDATION_FRACTION_BPS).ok_or(
        TariffError::MathOverflow,
    )?;
    let mut close_abs: i128 = scaled.checked_div(BPS_DENOM_I128).ok_or(TariffError::MathOverflow)?;
    if close_abs < 1 {
        close_abs = 1;
    }
    let delta: i128 = if pos > 0 {
        math::i128_neg(close_abs)?
    } else {
        close_abs
    };
    let new_pos: i128 = pos.checked_add(delta).ok_or(TariffError::MathOverflow)?;
    market::check_market_risk_after_change(market, pos, new_pos)?;
    let swap: Swap = market::vamm_swap(market, delta)?;
    let mut traded: TariffPerpMarket = *market;
    let mut moved: MarginAccount = *margin;
    traded.base_reserve = swap.new_base;
    traded.quote_reserve = swap.new_quote;
    margin::update_position_and_entry(&mut moved, swap.price_q64, delta)?;
    market::apply_position_change_to_market(&mut traded, pos, new_pos)?;
    let notional: i128 = math::base_times_price_to_usdc_micro(close_abs, swap.price_q64)?;
    proof {
        let shift = math::magnitude(market.swap_quote(delta as int) - market.quote_reserve);
        math::lemma_quotient_range(shift * Q64, math::magnitude(delta as int));
        math::lemma_usdc_value_range(close_abs as int, swap.price_q64 as int);
        math::lemma_usdc_value_nonnegative(close_abs as int, swap.price_q64 as int);
        math::lemma_fee_range(notional as int, market.liquidation_fee_bps);
    }
    let notional_abs: i128 = math::i128_abs(notional)?;
    let closed_notional_usdc: u64 = math::i128_to_u64(notional_abs)?;
    let fee: i128 = math::amount_bps(notional_abs, market.liquidation_fee_bps)?;
    let fee_usdc: u64 = math::i128_to_u64(fee)?;
    *market = traded;
    *margin = moved;
    Ok(ClosedPart { closed_base: close_abs, closed_notional_usdc, fee_usdc })
}

/// Closes part of an undercollateralized position, charges the fee and settles the debt.
pub fn close_out(
    market: &mut TariffPerpMarket,
    margin: &mut MarginAccount,
    insurance_balance: u64,
) -> (res: Result<CloseOut, TariffError>)
    ensures
        match close_out_refusal(*old(market), *old(margin)) {
            Some(e) => {
                &&& res == Err::<CloseOut, TariffError>(e)
                &&& *final(market) == *old(market)
                &&& *final(margin) == *old(margin)
            },
            None => {
                let pos = old(margin).position_base as int;
                &&& res is Ok
                &&& res->Ok_0.closed_base == close_size(pos)
                &&& res->Ok_0.closed_notional_usdc == closed_notional(*old(market), pos)
                &&& res->Ok_0.fee_usdc == fee_paid(*old(market), *old(margin))
                &&& res->Ok_0.debt_usdc == debt(*old(market), *old(margin))
                &&& res->Ok_0.cover_usdc == cover(
                    *old(market),
                    *old(margin),
                    insurance_balance as int,
                )
                &&& res->Ok_0.equity_before == old(margin).equity(*old(market))
                &&& res->Ok_0.equity_after == final(margin).equity(*final(market))
                &&& *final(market) == liquidated_market(*old(market), *old(margin))
                &&& *final(margin) == liquidated_margin(*old(market), *old(margin))
            },
        },
{
    let equity_before: i128 = require_liquidatable(market, margin)?;
    let mut traded: TariffPerpMarket = *market;
    let mut moved: MarginAccount = *margin;
    let part: ClosedPart = close_part(&mut traded, &mut moved)?;
    let fee_usdc: u64 = if moved.collateral_usdc <= part.fee_usdc {
        moved.collateral_usdc
    } else {
        part.fee_usdc
    };
    moved.collateral_usdc = moved.collateral_usdc - fee_usdc;
    let (equity_charged, _): (i128, i128) = margin::compute_equity_and_notional_usdc(
        &traded,
        &moved,
    )?;
    let mut debt_usdc: u64 = 0;
    let mut cover_usdc: u64 = 0;
    if equity_charged < 0 {
        proof {
            if moved.position_base != 0 {
                math::lemma_usdc_value_range(
                    moved.position_base as int,
                    traded.mark() - moved.entry_price_q64,
                );
            } else {
                math::lemma_usdc_value_of_nothing(traded.mark() - moved.entry_price_q64);
            }
        }
        let debt_i128: i128 = math::i128_neg(equity_charged)?;
        debt_usdc = math::i128_to_u64(debt_i128)?;
        cover_usdc = if insurance_balance <= debt_usdc {
            insurance_balance
        } else {
            debt_usdc
        };
        if cover_usdc > market.max_insurance_payout_per_liq_usdc {
            cover_usdc = market.max_insurance_payout_per_liq_usdc;
        }
        moved.collateral_usdc = 0;
    }
    let (equity_after, _): (i128, i128) = margin::compute_equity_and_notional_usdc(
        &traded,
        &moved,
    )?;
    *market = traded;
    *margin = moved;
    Ok(
        CloseOut {
            closed_base: part.closed_base,
            closed_notional_usdc: part.closed_notional_usdc,
            fee_usdc,
            debt_usdc,
            cover_usdc,
            equity_before,
            equity_after,
        },
    )
}

/// Liquidates part of a margin account, given what the price feed account holds.
pub fn liquidate_with_feed(ctx: &mut Liquidate, feed: &Option<PriceFeed>, now: i64) -> (res: Result<
    LiquidationOutcome,
    TariffError,
>)
    ensures
        error::outcome(
            res,
            liquidate_refusal(*old(ctx), *feed, now),
            liquidation_outcome(*old(ctx), *feed, now),
        ),
        *final(ctx) == (if res is Ok {
            liquidated(*old(ctx), *feed)
        } else {
            *old(ctx)
        }),
{
    accounts::require_keys_eq(&ctx.market.oracle, &ctx.oracle_key, TariffError::InvalidOracle)?;
    accounts::require_keys_eq(
        &ctx.user_margin.market,
        &ctx.market_key,
        TariffError::InvalidMarket,
    )?;
    if ctx.market.paused {
        return Err(TariffError::Paused);
    }
    let mut market: TariffPerpMarket = ctx.market;
    let mut margin: MarginAccount = ctx.user_margin;
    pyth::pass_gate(&mut market, &ctx.oracle, &ctx.pyth_feed.key, feed, now)?;
    accounts::require_vaults(
        &ctx.vault_usdc,
        &ctx.vault_authority,
        &ctx.insurance_vault_usdc,
        &ctx.insurance_authority,
        &market.usdc_mint,
    )?;
    accounts::require_keys_eq(
        &ctx.liquidator_usdc.mint,
        &market.usdc_mint,
        TariffError::InvalidMint,
    )?;
    margin::settle_funding(&market, &mut margin)?;
    let out: CloseOut = close_out(&mut market, &mut margin, ctx.insurance_vault_usdc.amount)?;
    let half: u64 = out.fee_usdc / 2;
    let other_half: u64 = out.fee_usdc - half;
    ctx.market = market;
    ctx.user_margin = margin;
    Ok(
        LiquidationOutcome {
            event: LiquidationEvent {
                market: ctx.market_key,
                user: ctx.user_margin.owner,
                liquidator: ctx.liquidator,
                closed_base: out.closed_base,
                closed_notional_usdc: out.closed_notional_usdc,
                fee_usdc: out.fee_usdc,
                equity_before: out.equity_before,
                equity_after: out.equity_after,
                ts: now,
            },
            bad_debt: if out.cover_usdc < out.debt_usdc {
                Some(
                    BadDebtEvent {
                        market: ctx.market_key,
                        user: ctx.user_margin.owner,
                        debt_usdc: out.debt_usdc,
                        covered_usdc: out.cover_usdc,
                        ts: now,
                    },
                )
            } else {
                None
            },
            liquidator_transfer: accounts::nonzero_transfer(
                TokenSlot::Vault,
                TokenSlot::Liquidator,
                TransferAuthority::Vault,
                half,
            ),
            insurance_transfer: accounts::nonzero_transfer(
                TokenSlot::Vault,
                TokenSlot::InsuranceVault,
                TransferAuthority::Vault,
                other_half,
            ),
            cover_transfer: accounts::nonzero_transfer(
                TokenSlot::InsuranceVault,
                TokenSlot::Vault,
                TransferAuthority::Insurance,
                out.cover_usdc,
            ),
        },
    )
}

/// Liquidates part of a margin account whose equity is below its maintenance requirement.
pub fn liquidate(ctx: &mut Liquidate, now: i64) -> (res: Result<LiquidationOutcome, TariffError>)
    ensures
        ({
            let feed = pyth::loaded_price_feed(
                old(ctx).pyth_feed.key.bytes@,
                old(ctx).pyth_feed.data@,
            );
            &&& error::outcome(
                res,
                liquidate_refusal(*old(ctx), feed, now),
                liquidation_outcome(*old(ctx), feed, now),
            )
            &&& *final(ctx) == (if res is Ok {
                liquidated(*old(ctx), feed)
            } else {
                *old(ctx)
            })
        }),
{
    let feed: Option<PriceFeed> = pyth::load_pyth_feed(&ctx.pyth_feed);
    liquidate_with_feed(ctx, &feed, now)
}

/// An account below its maintenance requirement has a position.
pub proof fn lemma_flat_account_is_safe(market: TariffPerpMarket, margin: MarginAccount)
    requires
        margin.position_base == 0,
    ensures
        margin.equity(market) >= maintenance_requirement(market, margin),
{
    math::lemma_usdc_value_of_nothing(market.mark());
    math::lemma_usdc_value_of_nothing(market.mark() - margin.entry_price_q64);
}

/// One liquidation closes something, and no more than the position.
pub proof fn lemma_close_size(pos: int)
    requires
        pos != 0,
    ensures
        1 <= close_size(pos) <= math::magnitude(pos),
{
}

} // verus!
