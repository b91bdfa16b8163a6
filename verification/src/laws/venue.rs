//! What the virtual reserves and the limits of a market do, and how a market is set up.

use crate::accounts::Pubkey;
use crate::admin;
use crate::admin::InitializeMarket;
use crate::admin::SetMarketFlags;
use crate::error::TariffError;
use crate::market::TariffPerpMarket;
use crate::math;
use vstd::prelude::*;

verus! {

/// The mark price is the greatest one at which the base reserve is worth no more than the quote
/// reserve, and there is one exactly when the reserves have a price.
pub proof fn law_mark_is_the_price_of_the_reserves(market: TariffPerpMarket)
    ensures
        market.base_reserve > 0 ==> market.base_reserve * market.mark() <= market.quote_reserve
            * 18_446_744_073_709_551_616 < market.base_reserve * market.mark()
            + market.base_reserve,
        market.mark_refusal() == math::mark_price_refusal(
            market.base_reserve as int,
            market.quote_reserve as int,
        ),
{
    if market.base_reserve > 0 {
        super::arithmetic::law_price_is_quote_over_base(
            market.base_reserve as int,
            market.quote_reserve as int,
        );
    }
}

/// A swap moves the base reserve by its size, sets the quote reserve to the greatest that keeps
/// the product within its constant, and prices the swap at the quote moved per base.
pub proof fn law_swap_is_priced_by_the_quote_it_moves(market: TariffPerpMarket, delta: int)
    ensures
        market.swap_base(delta) + delta == market.base_reserve,
        market.base_reserve - delta > 0 ==> ({
            let base = market.base_reserve - delta;
            let quote = market.swap_quote(delta);
            base * quote <= market.invariant_k < base * quote + base
        }),
        delta > 0 && market.swap_quote(delta) >= market.quote_reserve ==> ({
            let paid = (market.swap_quote(delta) - market.quote_reserve)
                * 18_446_744_073_709_551_616;
            delta * market.swap_price(delta) <= paid < delta * market.swap_price(delta) + delta
        }),
        delta < 0 && market.swap_quote(delta) <= market.quote_reserve ==> ({
            let got = (market.quote_reserve - market.swap_quote(delta))
                * 18_446_744_073_709_551_616;
            (-delta) * market.swap_price(delta) <= got < (-delta) * market.swap_price(delta)
                - delta
        }),
{
    if market.base_reserve - delta > 0 {
        let k = market.invariant_k as int;
        let base = market.base_reserve - delta;
        let q = k / base;
        assert(base * q <= k < base * q + base) by (nonlinear_arith)
            requires
                base > 0,
                q == k / base,
        ;
    }
    if delta != 0 {
        let n = math::magnitude(market.swap_quote(delta) - market.quote_reserve) * math::Q64;
        let d = math::magnitude(delta);
        let p = n / d;
        assert(d * p <= n < d * p + d) by (nonlinear_arith)
            requires
                d > 0,
                p == n / d,
        ;
    }
}

/// A purchase is quoted when it leaves base in the reserve, raises the quote reserve, and fits. A
/// sale is quoted when it lowers the quote reserve and fits. Nothing, and reserves that are not
/// positive, are refused first.
pub proof fn law_swap_is_refused_in_order(market: TariffPerpMarket, delta: int)
    ensures
        ({
            let refusal = market.swap_refusal(delta);
            let sound = market.base_reserve > 0 && market.quote_reserve > 0 && market.invariant_k
                > 0;
            let moved = market.swap_quote(delta) - market.quote_reserve;
            &&& delta == 0 ==> refusal == Some(TariffError::InvalidAmount)
            &&& delta != 0 && !sound ==> refusal == Some(TariffError::InvalidReserve)
            &&& sound && delta >= market.base_reserve ==> refusal == Some(
                TariffError::InsufficientLiquidity,
            )
            &&& sound && 0 < delta < market.base_reserve && 0 < moved < 9_223_372_036_854_775_808
                ==> refusal is None
            &&& sound && 0 < delta < market.base_reserve && !(0 < moved
                < 9_223_372_036_854_775_808) ==> refusal == Some(TariffError::MathOverflow)
            &&& sound && delta < 0 && market.base_reserve - delta > i128::MAX ==> refusal == Some(
                TariffError::MathOverflow,
            )
            &&& sound && delta < 0 && market.base_reserve - delta <= i128::MAX && moved >= 0
                ==> refusal == Some(TariffError::InsufficientLiquidity)
            &&& sound && delta < 0 && market.base_reserve - delta <= i128::MAX
                && -9_223_372_036_854_775_808 < moved < 0 ==> refusal is None
            &&& sound && delta < 0 && market.base_reserve - delta <= i128::MAX && moved
                <= -9_223_372_036_854_775_808 ==> refusal == Some(TariffError::MathOverflow)
        }),
{
}

/// A swap changes the two reserves and nothing else of the market.
pub proof fn law_swap_changes_the_reserves_alone(market: TariffPerpMarket, delta: int)
    requires
        market.swap_refusal(delta) is None,
    ensures
        ({
            let after = market.after_swap(delta);
            &&& after.base_reserve + delta == market.base_reserve
            &&& after.quote_reserve == market.swap_quote(delta)
            &&& after == (TariffPerpMarket {
                base_reserve: after.base_reserve,
                quote_reserve: after.quote_reserve,
                ..market
            })
        }),
{
    math::lemma_quotient_range(market.invariant_k as int, market.swap_base(delta));
}

/// A change of a position changes the open interest by the change of its size, and the net
/// position by the change itself.
pub proof fn law_interest_follows_the_size_and_net_the_position(
    market: TariffPerpMarket,
    old_pos: int,
    new_pos: int,
)
    ensures
        market.open_interest_after(old_pos, new_pos) - market.open_interest_base
            == math::magnitude(new_pos) - math::magnitude(old_pos),
        market.net_position_after(old_pos, new_pos) - market.net_position_base == new_pos
            - old_pos,
{
}

/// The limits admit a change exactly when the open interest it leaves is from nothing to its
/// limit and the net position it leaves is within the skew limit either way, and everything
/// fits. Too much interest or skew is a risk limit, and what does not fit an overflow.
pub proof fn law_limits_admit_what_is_within_them(
    market: TariffPerpMarket,
    old_pos: i128,
    new_pos: i128,
)
    ensures
        ({
            let refusal = market.risk_refusal(old_pos as int, new_pos as int);
            let recorded = market.record_refusal(old_pos as int, new_pos as int);
            let interest = market.open_interest_base + math::magnitude(new_pos as int)
                - math::magnitude(old_pos as int);
            let net = market.net_position_base + new_pos - old_pos;
            let sizes = old_pos > i128::MIN && new_pos > i128::MIN;
            let interest_fits = 0 <= interest <= i128::MAX;
            let net_fits = math::in_i128(new_pos - old_pos) && i128::MIN < net <= i128::MAX;
            let within = interest <= market.max_open_interest_base;
            let level = -market.max_skew_base <= net <= market.max_skew_base;
            &&& !sizes || !interest_fits ==> refusal == Some(TariffError::MathOverflow)
            &&& sizes && interest_fits && !within ==> refusal == Some(TariffError::RiskLimit)
            &&& sizes && interest_fits && within && !net_fits ==> refusal == Some(
                TariffError::MathOverflow,
            )
            &&& sizes && interest_fits && within && net_fits && !level ==> refusal == Some(
                TariffError::RiskLimit,
            )
            &&& sizes && interest_fits && within && net_fits && level ==> refusal is None
            &&& recorded is None <==> refusal is None
            &&& !sizes || !interest_fits ==> recorded == Some(TariffError::MathOverflow)
            &&& sizes && interest_fits && !(math::in_i128(new_pos - old_pos) && math::in_i128(net))
                ==> recorded == Some(TariffError::MathOverflow)
            &&& sizes && interest_fits && math::in_i128(new_pos - old_pos) && math::in_i128(net)
                && !within ==> recorded == Some(TariffError::RiskLimit)
            &&& sizes && interest_fits && within && net_fits && !level ==> recorded == Some(
                TariffError::RiskLimit,
            )
            &&& sizes && interest_fits && within && !net_fits ==> recorded == Some(
                TariffError::MathOverflow,
            )
        }),
{
}

/// The limits treat a position and its mirror image alike in a market that is mirrored too.
pub proof fn law_limits_are_the_same_for_long_and_short(
    market: TariffPerpMarket,
    mirror: TariffPerpMarket,
    old_pos: int,
    new_pos: int,
)
    requires
        mirror.open_interest_base == market.open_interest_base,
        mirror.net_position_base == -market.net_position_base,
        mirror.max_open_interest_base == market.max_open_interest_base,
        mirror.max_skew_base == market.max_skew_base,
        -i128::MAX <= old_pos <= i128::MAX,
        -i128::MAX <= new_pos <= i128::MAX,
        new_pos - old_pos != i128::MIN,
        old_pos - new_pos != i128::MIN,
    ensures
        mirror.risk_refusal(-old_pos, -new_pos) is None <==> market.risk_refusal(
            old_pos,
            new_pos,
        ) is None,
{
}

/// Recording a change sets open interest and net position and nothing else of the market.
pub proof fn law_recording_changes_the_tracking_alone(
    market: TariffPerpMarket,
    old_pos: int,
    new_pos: int,
)
    requires
        market.record_refusal(old_pos, new_pos) is None,
    ensures
        ({
            let after = market.after_position_change(old_pos, new_pos);
            &&& after.open_interest_base - market.open_interest_base == math::magnitude(new_pos)
                - math::magnitude(old_pos)
            &&& after.net_position_base - market.net_position_base == new_pos - old_pos
            &&& after == (TariffPerpMarket {
                open_interest_base: after.open_interest_base,
                net_position_base: after.net_position_base,
                ..market
            })
        }),
{
}

/// A market is created when the rates are at most one whole, maintenance is no more than initial
/// margin, the reserves are positive and their product fits. The first of these that fails is
/// reported.
pub proof fn law_market_is_refused_in_order(
    base: i128,
    quote: i128,
    initial_bps: u16,
    maintenance_bps: u16,
    trade_bps: u16,
    liquidation_bps: u16,
)
    ensures
        ({
            let refusal = admin::initialize_market_refusal(
                base,
                quote,
                initial_bps,
                maintenance_bps,
                trade_bps,
                liquidation_bps,
            );
            let margins = initial_bps <= 10_000 && maintenance_bps <= 10_000;
            let ordered = maintenance_bps <= initial_bps;
            let fees = trade_bps <= 10_000 && liquidation_bps <= 10_000;
            let reserves = base > 0 && quote > 0;
            &&& !margins ==> refusal == Some(TariffError::InvalidBps)
            &&& margins && !ordered ==> refusal == Some(TariffError::BadMarginParams)
            &&& margins && ordered && !fees ==> refusal == Some(TariffError::InvalidBps)
            &&& margins && ordered && fees && !reserves ==> refusal == Some(
                TariffError::InvalidReserve,
            )
            &&& margins && ordered && fees && reserves && base * quote > i128::MAX ==> refusal
                == Some(TariffError::MathOverflow)
            &&& margins && ordered && fees && reserves && base * quote <= i128::MAX ==> refusal
                is None
        }),
{
    if base > 0 && quote > 0 {
        assert(base * quote > 0) by (nonlinear_arith)
            requires
                base > 0,
                quote > 0,
        ;
    }
}

/// A new market holds its accounts and arguments, the product of its reserves, and the defaults:
/// hourly funding from now on, all fees to the insurance fund, a payout cap of 1,000 USDC, trades
/// of at least ten base units, a price impact of five percent and a spread of a tenth of one,
/// everything switched on, and no position and no funding yet.
pub proof fn law_new_market_has_its_arguments_and_the_defaults(
    ctx: InitializeMarket,
    base: i128,
    quote: i128,
    initial_bps: u16,
    maintenance_bps: u16,
    trade_bps: u16,
    liquidation_bps: u16,
    max_interest: i128,
    max_skew: i128,
    feed: Pubkey,
    now: i64,
)
    requires
        math::in_i128(base * quote),
    ensures
        ({
            let m = admin::new_market(
                ctx,
                base,
                quote,
                initial_bps,
                maintenance_bps,
                trade_bps,
                liquidation_bps,
                max_interest,
                max_skew,
                feed,
                now,
            );
            &&& m.admin == ctx.admin && m.oracle == ctx.oracle && m.usdc_mint == ctx.usdc_mint
            &&& m.vault_authority_bump == ctx.vault_authority_bump && m.insurance_authority_bump
                == ctx.insurance_authority_bump
            &&& m.vault_usdc == ctx.vault_usdc && m.insurance_vault_usdc
                == ctx.insurance_vault_usdc
            &&& m.pyth_sol_usd_feed == feed && m.last_pyth_publish_time == 0
            &&& m.base_reserve == base && m.quote_reserve == quote && m.invariant_k == base * quote
            &&& m.funding_index == 0 && m.last_funding_ts == now && m.funding_period_secs == 3600
            &&& m.initial_margin_bps == initial_bps && m.maintenance_margin_bps == maintenance_bps
            &&& m.trade_fee_bps == trade_bps && m.liquidation_fee_bps == liquidation_bps
            &&& m.max_insurance_payout_per_liq_usdc == 1_000_000_000 && m.fee_to_insurance_bps
                == 10_000
            &&& m.min_trade_base == 10_000_000 && m.max_price_impact_bps == 500 && m.spread_bps
                == 10
            &&& !m.reduce_only && !m.paused
            &&& m.open_interest_base == 0 && m.net_position_base == 0
            &&& m.max_open_interest_base == max_interest && m.max_skew_base == max_skew
            &&& m._pad0 == [0u8, 0u8, 0u8, 0u8, 0u8, 0u8] && m._pad1 == [0u8, 0u8]
        }),
{
}

/// The switches are the admin's, and the configuration is the admin's within its ranges: shares,
/// impact and spread of at most one whole, and a positive period and minimum trade. The first of
/// these that fails is reported.
pub proof fn law_configuration_is_refused_in_order(
    ctx: SetMarketFlags,
    fee_to_insurance_bps: u16,
    period: i64,
    min_trade: i128,
    impact_bps: u16,
    spread_bps: u16,
)
    ensures
        ctx.admin == ctx.market.admin ==> admin::market_admin_refusal(ctx) is None,
        ctx.admin != ctx.market.admin ==> admin::market_admin_refusal(ctx) == Some(
            TariffError::Unauthorized,
        ),
        ({
            let refusal = admin::set_market_config_refusal(
                ctx,
                fee_to_insurance_bps,
                period,
                min_trade,
                impact_bps,
                spread_bps,
            );
            let signed = ctx.admin == ctx.market.admin;
            let shared = fee_to_insurance_bps <= 10_000;
            let positive = period > 0 && min_trade > 0;
            let bounded = impact_bps <= 10_000 && spread_bps <= 10_000;
            &&& !signed ==> refusal == Some(TariffError::Unauthorized)
            &&& signed && !shared ==> refusal == Some(TariffError::InvalidBps)
            &&& signed && shared && !positive ==> refusal == Some(TariffError::InvalidConfig)
            &&& signed && shared && positive && !bounded ==> refusal == Some(
                TariffError::InvalidBps,
            )
            &&& signed && shared && positive && bounded ==> refusal is None
        }),
{
}

} // verus!
