//! When a trade goes through, at what price, and what it leaves.

use crate::accounts;
use crate::accounts::Pubkey;
use crate::accounts::TokenSlot;
use crate::accounts::TransferAuthority;
use crate::error::TariffError;
use crate::margin::MarginAccount;
use crate::market::TariffPerpMarket;
use crate::math;
use crate::pyth;
use crate::pyth::PriceFeed;
use crate::trading;
use crate::trading::ClosePosition;
use crate::trading::OpenPosition;
use vstd::prelude::*;

verus! {

/// The accounts of a trader are accepted exactly when the market reads the oracle, the signer
/// owns the margin account, and it is one of the market. The first of these that fails is
/// reported.
pub proof fn law_trader_is_accepted_with_matching_accounts(
    owner: Pubkey,
    oracle_key: Pubkey,
    market: TariffPerpMarket,
    market_key: Pubkey,
    margin: MarginAccount,
)
    ensures
        ({
            let refusal = trading::trader_refusal(owner, oracle_key, market, market_key, margin);
            let read = market.oracle == oracle_key;
            let owned = margin.owner == owner;
            let placed = margin.market == market_key;
            &&& !read ==> refusal == Some(TariffError::InvalidOracle)
            &&& read && !owned ==> refusal == Some(TariffError::Unauthorized)
            &&& read && owned && !placed ==> refusal == Some(TariffError::InvalidMarket)
            &&& read && owned && placed ==> refusal is None
        }),
{
}

/// A long buys and a short sells the amount, and the side of a change is the one that makes it.
pub proof fn law_side_is_the_sign_of_the_trade(side: u8, amount: int)
    ensures
        side == 0 ==> trading::signed_base(side, amount) == amount,
        side != 0 ==> trading::signed_base(side, amount) + amount == 0,
        amount > 0 ==> trading::side_of(amount) == 0 && trading::side_of(-amount) == 1,
        amount != 0 ==> trading::signed_base(trading::side_of(amount), math::magnitude(amount))
            == amount,
{
}

/// A trade is quoted when the market has a mark price before and after the swap and can make it,
/// and the first of these that fails is reported.
pub proof fn law_trade_is_quoted_when_priced_and_filled(market: TariffPerpMarket, delta: int)
    ensures
        ({
            let refusal = trading::quote_refusal(market, delta);
            let before = market.mark_refusal();
            let swap = market.swap_refusal(delta);
            &&& before is Some ==> refusal == before
            &&& before is None && swap is Some ==> refusal == swap
            &&& before is None && swap is None ==> refusal == market.after_swap(
                delta,
            ).mark_refusal()
        }),
{
}

/// The price impact is capped alike in both directions: a swap is refused as moving the price
/// too far exactly when ten thousand times the move is at least one above the cap times the
/// price before it.
pub proof fn law_impact_is_capped_either_way(market: TariffPerpMarket, delta: int)
    requires
        market.mark() > 0,
    ensures
        ({
            let refusal = trading::impact_refusal(market, delta);
            let before = market.mark();
            let after = market.after_swap(delta).mark();
            let limit = (market.max_price_impact_bps + 1) * before;
            let fits = math::in_i128((after - before) * 10_000) && math::in_i128(
                (before - after) * 10_000,
            );
            &&& refusal == Some(TariffError::PriceImpactTooHigh) ==> (after - before) * 10_000
                >= limit || (before - after) * 10_000 >= limit
            &&& refusal is None ==> -limit < (after - before) * 10_000 < limit
            &&& fits && -limit < (after - before) * 10_000 < limit ==> refusal is None
            &&& fits && !(-limit < (after - before) * 10_000 < limit) ==> refusal == Some(
                TariffError::PriceImpactTooHigh,
            )
            &&& refusal is Some && refusal != Some(TariffError::PriceImpactTooHigh) ==> refusal
                == Some(TariffError::MathOverflow) && !fits
            &&& !math::in_i128((after - before) * 10_000) && after >= before ==> refusal == Some(
                TariffError::MathOverflow,
            )
            &&& !math::in_i128((before - after) * 10_000) && after <= before ==> refusal == Some(
                TariffError::MathOverflow,
            )
        }),
{
    let before = market.mark();
    let after = market.after_swap(delta).mark();
    let n = math::magnitude(after - before) * 10_000;
    let cap = market.max_price_impact_bps as int;
    assert(n / before > cap <==> n >= (cap + 1) * before) by (nonlinear_arith)
        requires
            before > 0,
            n >= 0,
    ;
}

/// A price of nothing has no impact that can be measured.
pub proof fn law_no_impact_on_a_price_of_nothing(market: TariffPerpMarket, delta: int)
    requires
        market.mark() == 0,
    ensures
        trading::impact_refusal(market, delta) == Some(TariffError::MathOverflow),
{
}

/// A trade executes at the swap's price with the market's spread on it.
pub proof fn law_trade_executes_at_the_spread_price(
    market: TariffPerpMarket,
    delta: int,
    side: u8,
)
    ensures
        trading::trade_price(market, delta, side) == math::spread_price(
            market.swap_price(delta),
            market.spread_bps,
            side,
        ),
{
}

/// The fee is the fee rate on what is traded at the execution price, for longs and shorts alike:
/// the greatest whole amount of which ten thousand times is within rate times worth.
pub proof fn law_fee_is_the_rate_on_what_is_traded(
    market: TariffPerpMarket,
    delta: int,
    side: u8,
    size: int,
)
    requires
        size >= 0,
        delta == size || delta == -size,
        trading::trade_price(market, delta, side) >= 0,
    ensures
        ({
            let worth = math::usdc_value(size, trading::trade_price(market, delta, side));
            let fee = trading::trade_fee(market, delta, side);
            10_000 * fee <= worth * market.trade_fee_bps < 10_000 * fee + 10_000
        }),
{
    let price = trading::trade_price(market, delta, side);
    math::lemma_usdc_value_nonnegative(size, price);
    super::arithmetic::law_part_is_rate_times_amount_over_ten_thousand(
        math::usdc_value(size, price),
        market.trade_fee_bps as int,
    );
}

/// The insurance fund gets its share of a fee, rounded down.
pub proof fn law_insurance_gets_its_share(market: TariffPerpMarket, fee: int)
    ensures
        ({
            let share = trading::insurance_share(market, fee);
            10_000 * share <= fee * market.fee_to_insurance_bps < 10_000 * share + 10_000
        }),
{
}

/// A trade moves the reserves as its swap does and the tracking as its change of a position
/// does, and nothing else of the market.
pub proof fn law_trade_moves_reserves_and_tracking_alone(
    market: TariffPerpMarket,
    pos: int,
    delta: int,
)
    requires
        market.swap_refusal(delta) is None,
        market.risk_refusal(pos, pos + delta) is None,
    ensures
        ({
            let after = trading::traded_market(market, pos, delta);
            &&& after.base_reserve + delta == market.base_reserve
            &&& after.quote_reserve == market.swap_quote(delta)
            &&& after.open_interest_base - market.open_interest_base == math::magnitude(
                pos + delta,
            ) - math::magnitude(pos)
            &&& after.net_position_base - market.net_position_base == delta
            &&& after == (TariffPerpMarket {
                base_reserve: after.base_reserve,
                quote_reserve: after.quote_reserve,
                open_interest_base: after.open_interest_base,
                net_position_base: after.net_position_base,
                ..market
            })
        }),
{
    math::lemma_quotient_range(market.invariant_k as int, market.swap_base(delta));
}

/// A trade changes the account as a trade at the execution price does, and takes the whole fee
/// from the collateral that leaves.
pub proof fn law_trade_takes_the_whole_fee(
    market: TariffPerpMarket,
    margin: MarginAccount,
    delta: int,
    side: u8,
)
    requires
        trading::trade_fee(market, delta, side) >= 0,
        margin.after_trade(trading::trade_price(market, delta, side), delta).collateral_usdc
            >= trading::trade_fee(market, delta, side),
    ensures
        ({
            let after = trading::traded_margin(market, margin, delta, side);
            let moved = margin.after_trade(trading::trade_price(market, delta, side), delta);
            &&& after.collateral_usdc + trading::trade_fee(market, delta, side)
                == moved.collateral_usdc
            &&& after == (MarginAccount { collateral_usdc: after.collateral_usdc, ..moved })
        }),
{
}

/// A trade is filled when the spread can be put on, the worth fits, the collateral covers the
/// fee, the change can be recorded, and what it leaves still covers the fee. The first of these
/// that fails is reported.
pub proof fn law_fill_is_refused_in_order(
    market: TariffPerpMarket,
    margin: MarginAccount,
    delta: int,
    side: u8,
    size: int,
)
    requires
        size >= 0,
        delta == size || delta == -size,
    ensures
        ({
            let refusal = trading::fill_refusal(market, margin, delta, side);
            let price = trading::trade_price(market, delta, side);
            let fee = trading::trade_fee(market, delta, side);
            let spread = math::spread_price_refusal(
                market.swap_price(delta),
                market.spread_bps,
                side,
            );
            let fits = math::in_i128(size * price);
            let payable = margin.collateral_usdc >= fee;
            let recorded = margin.trade_refusal(price, delta);
            let paid = margin.after_trade(price, delta).collateral_usdc >= fee;
            &&& spread is Some ==> refusal == spread
            &&& spread is None && !fits ==> refusal == Some(TariffError::MathOverflow)
            &&& spread is None && fits && !payable ==> refusal == Some(
                TariffError::InsufficientCollateral,
            )
            &&& spread is None && fits && payable && recorded is Some ==> refusal == recorded
            &&& spread is None && fits && payable && recorded is None && !paid ==> refusal == Some(
                TariffError::MathOverflow,
            )
            &&& spread is None && fits && payable && recorded is None && paid ==> refusal is None
        }),
{
}

/// Reduce-only mode admits a change exactly when there is a position, it gets smaller, and it
/// does not turn round.
pub proof fn law_reduce_only_admits_smaller_positions(old_pos: i128, new_pos: i128)
    requires
        old_pos > i128::MIN,
        new_pos > i128::MIN,
    ensures
        ({
            let refusal = trading::reduce_only_refusal(old_pos as int, new_pos as int);
            let smaller = 0 <= new_pos < old_pos || old_pos < new_pos <= 0;
            &&& smaller ==> refusal is None
            &&& !smaller ==> refusal == Some(TariffError::ReduceOnly)
        }),
{
}

/// In reduce-only mode the least number, whose size does not fit, is never admitted: as an
/// overflow where the change does not turn the position round, and as such where it does.
pub proof fn law_reduce_only_refuses_the_least_number(old_pos: i128, new_pos: i128)
    requires
        old_pos == i128::MIN || new_pos == i128::MIN,
    ensures
        ({
            let refusal = trading::reduce_only_refusal(old_pos as int, new_pos as int);
            let turned = old_pos == 0 || (old_pos > 0 && new_pos < 0) || (old_pos < 0 && new_pos
                > 0);
            &&& turned ==> refusal == Some(TariffError::ReduceOnly)
            &&& !turned ==> refusal == Some(TariffError::MathOverflow)
        }),
{
}

/// An account that can be valued meets the initial margin exactly when its equity is at least
/// the market's initial rate on its notional, rounded down. Longs and shorts are held to the
/// same rate.
pub proof fn law_initial_margin_is_the_initial_rate_on_the_notional(
    market: TariffPerpMarket,
    margin: MarginAccount,
    required: int,
)
    requires
        10_000 * required <= margin.notional(market) * market.initial_margin_bps < 10_000
            * required + 10_000,
    ensures
        ({
            let refusal = trading::initial_margin_refusal(market, margin);
            let valued = margin.equity_refusal(market);
            &&& valued is Some ==> refusal == valued
            &&& valued is None && margin.equity(market) < required ==> refusal == Some(
                TariffError::MarginTooLow,
            )
            &&& valued is None && margin.equity(market) >= required ==> refusal is None
            &&& valued is None ==> trading::initial_requirement(market, margin) == required
        }),
{
    if margin.equity_refusal(market) is None {
        super::accounting::lemma_notional_nonnegative(market, margin);
        super::arithmetic::law_part_is_rate_times_amount_over_ten_thousand(
            margin.notional(market),
            market.initial_margin_bps as int,
        );
    }
}

/// An account and its mirror image, of the opposite position and the same equity, meet the
/// initial margin together.
pub proof fn law_initial_margin_is_the_same_for_long_and_short(
    market: TariffPerpMarket,
    margin: MarginAccount,
    mirror: MarginAccount,
)
    requires
        mirror.position_base == -margin.position_base,
        margin.equity_refusal(market) is None,
        mirror.equity_refusal(market) is None,
        mirror.equity(market) == margin.equity(market),
    ensures
        trading::initial_margin_refusal(market, mirror) == trading::initial_margin_refusal(
            market,
            margin,
        ),
{
}

/// After every trade that goes through, on either side, equity is at least the initial rate on
/// the notional, rounded down: ten thousand times the equity is more than rate times notional
/// less one whole.
pub proof fn law_trade_that_goes_through_has_its_initial_margin(
    ctx: OpenPosition,
    feed: Option<PriceFeed>,
    side: u8,
    amount: i128,
    now: i64,
)
    requires
        trading::open_position_refusal(ctx, feed, side, amount, now) is None,
    ensures
        ({
            let after = trading::opened(ctx, feed, side, amount);
            &&& 10_000 * after.margin.equity(after.market) > after.margin.notional(after.market)
                * ctx.market.initial_margin_bps - 10_000
            &&& after.market.initial_margin_bps == ctx.market.initial_margin_bps
        }),
{
    let after = trading::opened(ctx, feed, side, amount);
    super::accounting::lemma_notional_nonnegative(after.market, after.margin);
    super::arithmetic::law_part_is_rate_times_amount_over_ten_thousand(
        after.margin.notional(after.market),
        after.market.initial_margin_bps as int,
    );
}

/// A trade is refused for the first of these that fails: the accounts match, the side is one of
/// two, the amount is positive, the market is not paused, oracle and feed are sound, the vaults
/// are right, funding settles, the trade is large enough, the position fits, reduce-only mode and
/// the limits admit it, it can be quoted, its impact is within the cap, it can be filled, and it
/// leaves its initial margin. A trade for which none fails goes through.
pub proof fn law_trade_is_refused_in_order(
    ctx: OpenPosition,
    feed: Option<PriceFeed>,
    side: u8,
    amount: i128,
    now: i64,
)
    ensures
        ({
            let refusal = trading::open_position_refusal(ctx, feed, side, amount, now);
            let trader = trading::trader_refusal(
                ctx.owner,
                ctx.oracle_key,
                ctx.market,
                ctx.market_key,
                ctx.margin,
            );
            let gate = pyth::gate_refusal(ctx.market, ctx.oracle, ctx.pyth_feed.key, feed, now);
            let vaults = accounts::vaults_refusal(
                ctx.vault_usdc,
                ctx.vault_authority,
                ctx.insurance_vault_usdc,
                ctx.insurance_authority,
                ctx.market.usdc_mint,
            );
            let market = pyth::after_feed(ctx.market, feed);
            let settled = ctx.margin.funding_refusal(market);
            let margin = ctx.margin.after_funding(market);
            let delta = if side == 0 {
                amount as int
            } else {
                -amount
            };
            let pos = ctx.margin.position_base as int;
            let new = pos + delta;
            let reducing = trading::reduce_only_refusal(pos, new);
            let limits = market.risk_refusal(pos, new);
            let quote = trading::quote_refusal(market, delta);
            let impact = trading::impact_refusal(market, delta);
            let fill = trading::fill_refusal(market, margin, delta, side);
            let asked = trader is None && (side == 0 || side == 1) && amount > 0
                && !ctx.market.paused;
            let entered = asked && gate is None && vaults is None && settled is None && amount
                >= ctx.market.min_trade_base;
            let admitted = entered && math::in_i128(new) && (!ctx.market.reduce_only || reducing
                is None) && limits is None;
            &&& trader is Some ==> refusal == trader
            &&& trader is None && side > 1 ==> refusal == Some(TariffError::InvalidSide)
            &&& trader is None && side <= 1 && amount <= 0 ==> refusal == Some(
                TariffError::InvalidAmount,
            )
            &&& trader is None && side <= 1 && amount > 0 && ctx.market.paused ==> refusal == Some(
                TariffError::Paused,
            )
            &&& asked && gate is Some ==> refusal == gate
            &&& asked && gate is None && vaults is Some ==> refusal == vaults
            &&& asked && gate is None && vaults is None && settled is Some ==> refusal == settled
            &&& asked && gate is None && vaults is None && settled is None && amount
                < ctx.market.min_trade_base ==> refusal == Some(TariffError::TradeTooSmall)
            &&& entered && !math::in_i128(new) ==> refusal == Some(TariffError::MathOverflow)
            &&& entered && math::in_i128(new) && ctx.market.reduce_only && reducing is Some
                ==> refusal == reducing
            &&& entered && math::in_i128(new) && (!ctx.market.reduce_only || reducing is None)
                && limits is Some ==> refusal == limits
            &&& admitted && quote is Some ==> refusal == quote
            &&& admitted && quote is None && impact is Some ==> refusal == impact
            &&& admitted && quote is None && impact is None && fill is Some ==> refusal == fill
            &&& admitted && quote is None && impact is None && fill is None ==> refusal
                == trading::initial_margin_refusal(
                trading::traded_market(market, pos, delta),
                trading::traded_margin(market, margin, delta, side),
            )
        }),
{
}

/// A trade leaves the market and the settled account as trading leaves them, and no other
/// account of the instruction changes.
pub proof fn law_opening_changes_market_and_margin_alone(
    ctx: OpenPosition,
    feed: Option<PriceFeed>,
    side: u8,
    amount: i128,
)
    ensures
        ({
            let after = trading::opened(ctx, feed, side, amount);
            let market = pyth::after_feed(ctx.market, feed);
            let delta = if side == 0 {
                amount as int
            } else {
                -amount
            };
            &&& after.market == trading::traded_market(
                market,
                ctx.margin.position_base as int,
                delta,
            )
            &&& after.margin == trading::traded_margin(
                market,
                ctx.margin.after_funding(market),
                delta,
                side,
            )
            &&& after == (OpenPosition { market: after.market, margin: after.margin, ..ctx })
        }),
{
}

/// A trade is reported with its owner, market, side and size, its execution price and fee, and
/// the mark prices before and after it, and moves the insurance fund's share from the vault to
/// the insurance vault with the vault's signature.
pub proof fn law_trade_is_reported_as_it_was_made(
    market_key: Pubkey,
    owner: Pubkey,
    market: TariffPerpMarket,
    delta: int,
    side: u8,
    now: i64,
)
    requires
        math::in_i128(delta),
        trading::quote_refusal(market, delta) is None,
        math::spread_price_refusal(market.swap_price(delta), market.spread_bps, side) is None,
        math::in_i128(delta * trading::trade_price(market, delta, side)),
        math::in_i128((-delta) * trading::trade_price(market, delta, side)),
    ensures
        ({
            let out = trading::trade_outcome(market_key, owner, market, delta, side, now);
            let fee = trading::trade_fee(market, delta, side);
            let share = trading::insurance_share(market, fee);
            &&& out.event.market == market_key && out.event.user == owner && out.event.side == side
            &&& out.event.base_delta == delta && out.event.ts == now
            &&& out.event.exec_price_q64 == trading::trade_price(market, delta, side)
            &&& out.event.fee_usdc == fee
            &&& out.event.mark_before_q64 == market.mark()
            &&& out.event.mark_after_q64 == market.after_swap(delta).mark()
            &&& out.insurance_transfer is Some <==> share > 0
            &&& out.insurance_transfer is Some ==> out.insurance_transfer->Some_0.amount == share
                && out.insurance_transfer->Some_0.from == TokenSlot::Vault
                && out.insurance_transfer->Some_0.to == TokenSlot::InsuranceVault
                && out.insurance_transfer->Some_0.authority == TransferAuthority::Vault
        }),
{
    let price = trading::trade_price(market, delta, side);
    let size = math::magnitude(delta);
    trading::lemma_marks_nonnegative(market, delta);
    trading::lemma_trade_price_nonnegative(market, delta, side);
    math::lemma_usdc_value_range(size, price);
    math::lemma_usdc_value_nonnegative(size, price);
    math::lemma_fee_range(math::usdc_value(size, price), market.trade_fee_bps);
    let fee = trading::trade_fee(market, delta, side);
    math::lemma_share_range(fee as u64, market.fee_to_insurance_bps);
    let n = market.swap_price(delta) * math::spread_factor_bps(market.spread_bps, side);
    math::lemma_quotient_range(math::magnitude(n), 10_000);
}

/// A close is refused for the first of these that fails: the accounts match, oracle and feed are
/// sound, the vaults are right, funding settles, there is a position, the limits admit that it
/// goes, it can be quoted, and it can be filled on the side opposite to it. A close for which none
/// fails goes through: there is no cap on its impact, no minimum size and no margin to meet.
pub proof fn law_close_is_refused_in_order(
    ctx: ClosePosition,
    feed: Option<PriceFeed>,
    now: i64,
)
    ensures
        ({
            let refusal = trading::close_position_refusal(ctx, feed, now);
            let trader = trading::trader_refusal(
                ctx.owner,
                ctx.oracle_key,
                ctx.market,
                ctx.market_key,
                ctx.margin,
            );
            let gate = pyth::gate_refusal(ctx.market, ctx.oracle, ctx.pyth_feed.key, feed, now);
            let vaults = accounts::vaults_refusal(
                ctx.vault_usdc,
                ctx.vault_authority,
                ctx.insurance_vault_usdc,
                ctx.insurance_authority,
                ctx.market.usdc_mint,
            );
            let market = pyth::after_feed(ctx.market, feed);
            let settled = ctx.margin.funding_refusal(market);
            let margin = ctx.margin.after_funding(market);
            let pos = ctx.margin.position_base as int;
            let limits = market.risk_refusal(pos, 0);
            let quote = trading::quote_refusal(market, -pos);
            let side = if pos < 0 {
                0u8
            } else {
                1u8
            };
            let entered = trader is None && gate is None && vaults is None && settled is None;
            &&& trader is Some ==> refusal == trader
            &&& trader is None && gate is Some ==> refusal == gate
            &&& trader is None && gate is None && vaults is Some ==> refusal == vaults
            &&& trader is None && gate is None && vaults is None && settled is Some ==> refusal
                == settled
            &&& entered && pos == 0 ==> refusal == Some(TariffError::NoPosition)
            &&& entered && pos != 0 && limits is Some ==> refusal == limits
            &&& entered && pos != 0 && limits is None && quote is Some ==> refusal == quote
            &&& entered && pos != 0 && limits is None && quote is None ==> refusal
                == trading::fill_refusal(market, margin, -pos, side)
        }),
{
}

/// Closing depends on nothing that guards opening: it is refused alike whatever the price impact
/// cap, the minimum trade, the margin rates and the switches are.
pub proof fn law_closing_ignores_what_guards_opening(
    ctx: ClosePosition,
    feed: Option<PriceFeed>,
    now: i64,
    max_price_impact_bps: u16,
    min_trade_base: i128,
    initial_margin_bps: u16,
    maintenance_margin_bps: u16,
    paused: bool,
    reduce_only: bool,
)
    ensures
        ({
            let other = ClosePosition {
                market: TariffPerpMarket {
                    max_price_impact_bps,
                    min_trade_base,
                    initial_margin_bps,
                    maintenance_margin_bps,
                    paused,
                    reduce_only,
                    ..ctx.market
                },
                ..ctx
            };
            trading::close_position_refusal(other, feed, now) == trading::close_position_refusal(
                ctx,
                feed,
                now,
            )
        }),
{
    let other = TariffPerpMarket {
        max_price_impact_bps,
        min_trade_base,
        initial_margin_bps,
        maintenance_margin_bps,
        paused,
        reduce_only,
        ..ctx.market
    };
    let m1 = pyth::after_feed(ctx.market, feed);
    let m2 = pyth::after_feed(other, feed);
    let g = ctx.margin.after_funding(m1);
    assert(ctx.margin.after_funding(m2) == g);
    let pos = g.position_base as int;
    assert(m2.risk_refusal(pos, 0) == m1.risk_refusal(pos, 0));
    assert(trading::quote_refusal(m2, -pos) == trading::quote_refusal(m1, -pos));
    assert(trading::fill_refusal(m2, g, -pos, trading::side_of(-pos)) == trading::fill_refusal(
        m1,
        g,
        -pos,
        trading::side_of(-pos),
    ));
}

/// A close trades the whole position away, on the side opposite to it, and changes no other
/// account of the instruction.
pub proof fn law_closing_changes_market_and_margin_alone(
    ctx: ClosePosition,
    feed: Option<PriceFeed>,
)
    ensures
        ({
            let after = trading::closed(ctx, feed);
            let market = pyth::after_feed(ctx.market, feed);
            let pos = ctx.margin.position_base as int;
            let side = if pos < 0 {
                0u8
            } else {
                1u8
            };
            &&& after.market == trading::traded_market(market, pos, -pos)
            &&& after.margin == trading::traded_margin(
                market,
                ctx.margin.after_funding(market),
                -pos,
                side,
            )
            &&& after == (ClosePosition { market: after.market, margin: after.margin, ..ctx })
        }),
{
}

} // verus!
