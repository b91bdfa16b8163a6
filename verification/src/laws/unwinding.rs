//! When an account is liquidated, how much of it, and who pays.

use crate::accounts;
use crate::accounts::TokenSlot;
use crate::accounts::TransferAuthority;
use crate::error::TariffError;
use crate::liquidation;
use crate::liquidation::Liquidate;
use crate::margin::MarginAccount;
use crate::market::TariffPerpMarket;
use crate::math;
use crate::pyth;
use crate::pyth::PriceFeed;
use crate::trading;
use vstd::prelude::*;

verus! {

/// An account that can be valued can be liquidated exactly when its equity is below the market's
/// maintenance rate on its notional, rounded down. Longs and shorts are held to the same rate.
pub proof fn law_liquidatable_is_below_the_maintenance_rate_on_the_notional(
    market: TariffPerpMarket,
    margin: MarginAccount,
    required: int,
)
    requires
        10_000 * required <= margin.notional(market) * market.maintenance_margin_bps < 10_000
            * required + 10_000,
    ensures
        ({
            let refusal = liquidation::liquidatable_refusal(market, margin);
            let valued = margin.equity_refusal(market);
            &&& valued is Some ==> refusal == valued
            &&& valued is None && margin.equity(market) < required ==> refusal is None
            &&& valued is None && margin.equity(market) >= required ==> refusal == Some(
                TariffError::NotLiquidatable,
            )
            &&& valued is None ==> liquidation::maintenance_requirement(market, margin) == required
        }),
{
    if margin.equity_refusal(market) is None {
        super::accounting::lemma_notional_nonnegative(market, margin);
        super::arithmetic::law_part_is_rate_times_amount_over_ten_thousand(
            margin.notional(market),
            market.maintenance_margin_bps as int,
        );
    }
}

/// An account and its mirror image, of the opposite position and the same equity, can be
/// liquidated together.
pub proof fn law_liquidatable_is_the_same_for_long_and_short(
    market: TariffPerpMarket,
    margin: MarginAccount,
    mirror: MarginAccount,
)
    requires
        mirror.position_base == -margin.position_base,
        margin.equity_refusal(market) is None,
        mirror.equity_refusal(market) is None,
        mirror.equity(market) == margin.equity(market),
    ensures
        liquidation::liquidatable_refusal(market, mirror) == liquidation::liquidatable_refusal(
            market,
            margin,
        ),
{
}

/// An account that is liquidated was below the maintenance rate on its notional, and one that
/// was above it was not touched: ten thousand times the equity before is less than rate times
/// notional.
pub proof fn law_liquidated_account_was_below_maintenance(
    ctx: Liquidate,
    feed: Option<PriceFeed>,
    now: i64,
)
    requires
        liquidation::liquidate_refusal(ctx, feed, now) is None,
    ensures
        ({
            let market = pyth::after_feed(ctx.market, feed);
            let margin = ctx.user_margin.after_funding(market);
            10_000 * margin.equity(market) < margin.notional(market)
                * ctx.market.maintenance_margin_bps
        }),
{
    let market = pyth::after_feed(ctx.market, feed);
    let margin = ctx.user_margin.after_funding(market);
    super::accounting::lemma_notional_nonnegative(market, margin);
    super::arithmetic::law_part_is_rate_times_amount_over_ten_thousand(
        margin.notional(market),
        market.maintenance_margin_bps as int,
    );
}

/// One liquidation closes a fifth of a position, rounded down, or the smallest unit, by trading
/// against it, and closes as much of a short as of a long.
pub proof fn law_a_fifth_is_closed_against_the_position(pos: int)
    requires
        pos != 0,
    ensures
        ({
            let size = liquidation::close_size(pos);
            &&& math::magnitude(pos) >= 5 ==> 5 * size <= math::magnitude(pos) < 5 * size + 5
            &&& math::magnitude(pos) < 5 ==> size == 1
            &&& liquidation::close_size(-pos) == size
            &&& pos > 0 ==> liquidation::close_delta(pos) + size == 0
            &&& pos < 0 ==> liquidation::close_delta(pos) == size
        }),
{
}

/// The closed part is worth its size at the swap's price, and the liquidation fee is the fee
/// rate on that alone, rounded down.
pub proof fn law_liquidation_fee_is_the_rate_on_the_closed_part(
    market: TariffPerpMarket,
    pos: int,
)
    requires
        pos != 0,
        market.swap_price(liquidation::close_delta(pos)) >= 0,
    ensures
        ({
            let worth = liquidation::closed_notional(market, pos);
            let fee = liquidation::liquidation_fee(market, pos);
            &&& worth == math::usdc_value(
                liquidation::close_size(pos),
                market.swap_price(liquidation::close_delta(pos)),
            )
            &&& 10_000 * fee <= worth * market.liquidation_fee_bps < 10_000 * fee + 10_000
        }),
{
    liquidation::lemma_close_size(pos);
    let price = market.swap_price(liquidation::close_delta(pos));
    math::lemma_usdc_value_nonnegative(liquidation::close_size(pos), price);
    super::arithmetic::law_part_is_rate_times_amount_over_ten_thousand(
        liquidation::closed_notional(market, pos),
        market.liquidation_fee_bps as int,
    );
}

/// A liquidation closes its part at the swap's own price, with no spread on it, and moves the
/// market as a trade of that part does.
pub proof fn law_liquidation_trades_at_the_swap_price(
    market: TariffPerpMarket,
    margin: MarginAccount,
)
    ensures
        ({
            let pos = margin.position_base as int;
            let delta = liquidation::close_delta(pos);
            &&& liquidation::partly_closed(market, margin) == margin.after_trade(
                market.swap_price(delta),
                delta,
            )
            &&& liquidation::liquidated_market(market, margin) == trading::traded_market(
                market,
                pos,
                delta,
            )
        }),
{
}

/// The fee that is paid is the whole fee where the collateral covers it, and all the collateral
/// where it does not.
pub proof fn law_fee_is_paid_as_far_as_there_is_collateral(
    market: TariffPerpMarket,
    margin: MarginAccount,
)
    ensures
        ({
            let left = liquidation::partly_closed(market, margin).collateral_usdc;
            let fee = liquidation::liquidation_fee(market, margin.position_base as int);
            let paid = liquidation::fee_paid(market, margin);
            &&& left >= fee ==> paid == fee
            &&& left < fee ==> paid == left
        }),
{
}

/// The liquidator gets half of the fee, rounded down, and the insurance fund the rest.
pub proof fn law_liquidator_gets_half(fee: int)
    ensures
        2 * liquidation::liquidator_part(fee) <= fee <= 2 * liquidation::liquidator_part(fee) + 1,
        liquidation::liquidator_part(fee) + liquidation::insurance_part(fee) == fee,
{
}

/// Charging the fee takes what is paid from the collateral and nothing else of the account.
pub proof fn law_charging_takes_the_fee_alone(market: TariffPerpMarket, margin: MarginAccount)
    requires
        margin.position_base != 0,
        liquidation::close_part_refusal(market, margin) is None,
    ensures
        ({
            let before = liquidation::partly_closed(market, margin);
            let after = liquidation::fee_charged(market, margin);
            &&& after.collateral_usdc + liquidation::fee_paid(market, margin)
                == before.collateral_usdc
            &&& after == (MarginAccount { collateral_usdc: after.collateral_usdc, ..before })
        }),
{
    super::law_liquidation_charges_what_there_is(market, margin);
}

/// The debt is what equity lacks to nothing once the fee is charged, and there is none where it
/// lacks nothing.
pub proof fn law_debt_is_what_equity_lacks(market: TariffPerpMarket, margin: MarginAccount)
    ensures
        ({
            let equity = liquidation::fee_charged(market, margin).equity(
                liquidation::liquidated_market(market, margin),
            );
            &&& equity < 0 ==> liquidation::debt(market, margin) + equity == 0
            &&& equity >= 0 ==> liquidation::debt(market, margin) == 0
        }),
{
}

/// The insurance fund covers as much of the debt as its balance and its cap allow: no more than
/// any of the three, and all of one of them.
pub proof fn law_cover_is_as_much_as_allowed(
    market: TariffPerpMarket,
    margin: MarginAccount,
    balance: int,
)
    ensures
        ({
            let covered = liquidation::cover(market, margin, balance);
            let owed = liquidation::debt(market, margin);
            let cap = market.max_insurance_payout_per_liq_usdc;
            &&& covered <= balance && covered <= owed && covered <= cap
            &&& covered == balance || covered == owed || covered == cap
        }),
{
}

/// An account in debt is left without collateral, and any other as charging the fee left it.
/// Nothing else of the account changes.
pub proof fn law_debt_takes_the_collateral(market: TariffPerpMarket, margin: MarginAccount)
    ensures
        ({
            let before = liquidation::fee_charged(market, margin);
            let after = liquidation::liquidated_margin(market, margin);
            &&& liquidation::debt(market, margin) > 0 ==> after.collateral_usdc == 0
            &&& liquidation::debt(market, margin) <= 0 ==> after == before
            &&& after == (MarginAccount { collateral_usdc: after.collateral_usdc, ..before })
        }),
{
}

/// A part is closed when the fifth can be computed, the limits admit it, it can be swapped, the
/// change can be recorded and its worth fits, and the first of these that fails is reported.
pub proof fn law_partial_close_is_refused_in_order(market: TariffPerpMarket, margin: MarginAccount)
    ensures
        ({
            let refusal = liquidation::close_part_refusal(market, margin);
            let pos = margin.position_base as int;
            let delta = liquidation::close_delta(pos);
            let price = market.swap_price(delta);
            let sized = math::in_i128(math::magnitude(pos) * 2_000);
            let limits = market.risk_refusal(pos, pos + delta);
            let swap = market.swap_refusal(delta);
            let recorded = margin.trade_refusal(price, delta);
            let fits = math::in_i128(liquidation::close_size(pos) * price);
            &&& !sized ==> refusal == Some(TariffError::MathOverflow)
            &&& sized && limits is Some ==> refusal == limits
            &&& sized && limits is None && swap is Some ==> refusal == swap
            &&& sized && limits is None && swap is None && recorded is Some ==> refusal == recorded
            &&& sized && limits is None && swap is None && recorded is None && !fits ==> refusal
                == Some(TariffError::MathOverflow)
            &&& sized && limits is None && swap is None && recorded is None && fits ==> refusal
                is None
        }),
{
}

/// A settled account is closed out when it can be liquidated, part of it can be closed, and what
/// is left can be valued, and the first of these that fails is reported.
pub proof fn law_close_out_is_refused_in_order(market: TariffPerpMarket, margin: MarginAccount)
    ensures
        ({
            let refusal = liquidation::close_out_refusal(market, margin);
            let below = liquidation::liquidatable_refusal(market, margin);
            let part = liquidation::close_part_refusal(market, margin);
            &&& below is Some ==> refusal == below
            &&& below is None && part is Some ==> refusal == part
            &&& below is None && part is None ==> refusal == liquidation::fee_charged(
                market,
                margin,
            ).equity_refusal(liquidation::liquidated_market(market, margin))
        }),
{
}

/// A liquidation is refused for the first of these that fails: the market reads the oracle, the
/// account is one of the market, the market is not paused, oracle and feed are sound, the vaults
/// and the liquidator's mint are right, funding settles, and the settled account can be closed
/// out.
pub proof fn law_liquidation_is_refused_in_order(
    ctx: Liquidate,
    feed: Option<PriceFeed>,
    now: i64,
)
    ensures
        ({
            let refusal = liquidation::liquidate_refusal(ctx, feed, now);
            let read = ctx.market.oracle == ctx.oracle_key;
            let placed = ctx.user_margin.market == ctx.market_key;
            let gate = pyth::gate_refusal(ctx.market, ctx.oracle, ctx.pyth_feed.key, feed, now);
            let vaults = accounts::vaults_refusal(
                ctx.vault_usdc,
                ctx.vault_authority,
                ctx.insurance_vault_usdc,
                ctx.insurance_authority,
                ctx.market.usdc_mint,
            );
            let minted = ctx.liquidator_usdc.mint == ctx.market.usdc_mint;
            let market = pyth::after_feed(ctx.market, feed);
            let settled = ctx.user_margin.funding_refusal(market);
            let asked = read && placed && !ctx.market.paused;
            &&& !read ==> refusal == Some(TariffError::InvalidOracle)
            &&& read && !placed ==> refusal == Some(TariffError::InvalidMarket)
            &&& read && placed && ctx.market.paused ==> refusal == Some(TariffError::Paused)
            &&& asked && gate is Some ==> refusal == gate
            &&& asked && gate is None && vaults is Some ==> refusal == vaults
            &&& asked && gate is None && vaults is None && !minted ==> refusal == Some(
                TariffError::InvalidMint,
            )
            &&& asked && gate is None && vaults is None && minted && settled is Some ==> refusal
                == settled
            &&& asked && gate is None && vaults is None && minted && settled is None ==> refusal
                == liquidation::close_out_refusal(market, ctx.user_margin.after_funding(market))
        }),
{
}

/// A liquidation leaves the market and the settled account as closing out leaves them, and no
/// other account of the instruction changes.
pub proof fn law_liquidating_changes_market_and_margin_alone(
    ctx: Liquidate,
    feed: Option<PriceFeed>,
)
    ensures
        ({
            let after = liquidation::liquidated(ctx, feed);
            let market = pyth::after_feed(ctx.market, feed);
            let margin = ctx.user_margin.after_funding(market);
            &&& after.market == liquidation::liquidated_market(market, margin)
            &&& after.user_margin == liquidation::liquidated_margin(market, margin)
            &&& after == (Liquidate { market: after.market, user_margin: after.user_margin, ..ctx })
        }),
{
}

/// A liquidation is reported with the accounts, the part closed and its worth, the fee paid and
/// the equity before and after. It moves the liquidator's part of the fee and the insurance
/// fund's part from the vault, and the cover from the insurance vault to the vault. Debt beyond
/// the cover is reported, with both.
pub proof fn law_liquidation_is_reported_as_it_was_made(
    ctx: Liquidate,
    feed: Option<PriceFeed>,
    now: i64,
)
    requires
        liquidation::liquidate_refusal(ctx, feed, now) is None,
    ensures
        ({
            let out = liquidation::liquidation_outcome(ctx, feed, now);
            let market = pyth::after_feed(ctx.market, feed);
            let margin = ctx.user_margin.after_funding(market);
            let after = liquidation::liquidated(ctx, feed);
            let pos = ctx.user_margin.position_base as int;
            let fee = liquidation::fee_paid(market, margin);
            let owed = liquidation::debt(market, margin);
            let covered = liquidation::cover(
                market,
                margin,
                ctx.insurance_vault_usdc.amount as int,
            );
            &&& out.event.market == ctx.market_key && out.event.user == ctx.user_margin.owner
            &&& out.event.liquidator == ctx.liquidator && out.event.ts == now
            &&& out.event.closed_base == liquidation::close_size(pos)
            &&& out.event.closed_notional_usdc == liquidation::closed_notional(market, pos)
            &&& out.event.fee_usdc == fee
            &&& out.event.equity_before == margin.equity(market)
            &&& out.event.equity_after == after.user_margin.equity(after.market)
            &&& out.liquidator_transfer == accounts::transfer_of(
                TokenSlot::Vault,
                TokenSlot::Liquidator,
                TransferAuthority::Vault,
                liquidation::liquidator_part(fee) as u64,
            )
            &&& out.insurance_transfer == accounts::transfer_of(
                TokenSlot::Vault,
                TokenSlot::InsuranceVault,
                TransferAuthority::Vault,
                liquidation::insurance_part(fee) as u64,
            )
            &&& out.cover_transfer == accounts::transfer_of(
                TokenSlot::InsuranceVault,
                TokenSlot::Vault,
                TransferAuthority::Insurance,
                covered as u64,
            )
            &&& out.bad_debt is Some <==> covered < owed
            &&& out.bad_debt is Some ==> ({
                let debt = out.bad_debt->Some_0;
                &&& debt.market == ctx.market_key && debt.user == ctx.user_margin.owner
                &&& debt.debt_usdc == owed && debt.covered_usdc == covered && debt.ts == now
            })
        }),
{
    let market = pyth::after_feed(ctx.market, feed);
    let margin = ctx.user_margin.after_funding(market);
    let pos = margin.position_base as int;
    if pos == 0 {
        liquidation::lemma_flat_account_is_safe(market, margin);
    }
    super::law_liquidation_charges_what_there_is(market, margin);
    liquidation::lemma_close_size(pos);
    let delta = liquidation::close_delta(pos);
    let shift = math::magnitude(market.swap_quote(delta) - market.quote_reserve);
    math::lemma_quotient_range(shift * math::Q64, math::magnitude(delta));
    math::lemma_usdc_value_range(liquidation::close_size(pos), market.swap_price(delta));
    math::lemma_usdc_value_nonnegative(liquidation::close_size(pos), market.swap_price(delta));
    math::lemma_usdc_value_range(pos, market.mark() - margin.entry_price_q64);
    let after_market = liquidation::liquidated_market(market, margin);
    let charged = liquidation::fee_charged(market, margin);
    if charged.position_base == 0 {
        math::lemma_usdc_value_of_nothing(after_market.mark() - charged.entry_price_q64);
    } else {
        math::lemma_usdc_value_range(
            charged.position_base as int,
            after_market.mark() - charged.entry_price_q64,
        );
    }
}

} // verus!
