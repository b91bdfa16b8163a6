//! What holds of the market and the oracle as a whole.

pub mod accounting;
pub mod arithmetic;
pub mod gate;
pub mod periods;
pub mod tariff;
pub mod trades;
pub mod transfers;
pub mod unwinding;
pub mod venue;

use crate::accounts::Pubkey;
use crate::admin;
use crate::admin::InitializeMarket;
use crate::admin::SetMarketFlags;
use crate::collateral;
use crate::collateral::DepositUsdc;
use crate::collateral::WithdrawUsdc;
use crate::error::TariffError;
use crate::funding;
use crate::funding::ApplyFunding;
use crate::liquidation;
use crate::liquidation::Liquidate;
use crate::margin;
use crate::margin::MarginAccount;
use crate::market::TariffPerpMarket;
use crate::math;
use crate::math::Q64;
use crate::oracle;
use crate::oracle::BasketWeight;
use crate::oracle::CountryAddon;
use crate::oracle::OracleSetBaseline;
use crate::oracle::OracleSetGuardrails;
use crate::oracle::OracleUpsertAddon;
use crate::oracle::OracleUpsertWeight;
use crate::oracle::TariffOracle;
use crate::pyth;
use crate::pyth::PriceFeed;
use crate::trading;
use crate::trading::ClosePosition;
use crate::trading::OpenPosition;
use vstd::prelude::*;

verus! {

// The oracle.

/// An add-on counts only through enabled weights of its country: without one it contributes
/// nothing.
pub proof fn law_unweighted_addon_counts_nothing(
    addon: CountryAddon,
    weights: Seq<BasketWeight>,
)
    requires
        forall|i: int|
            0 <= i < weights.len() ==> !(#[trigger] weights[i]).enabled || weights[i].country_code
                != addon.country_code,
    ensures
        oracle::addon_contribution(addon, weights) == 0,
    decreases weights.len(),
{
    if weights.len() > 0 {
        let rest = weights.drop_last();
        assert forall|i: int| 0 <= i < rest.len() implies !(#[trigger] rest[i]).enabled
            || rest[i].country_code != addon.country_code by {
            assert(rest[i] == weights[i]);
        }
        law_unweighted_addon_counts_nothing(addon, rest);
        assert(weights[weights.len() - 1] == weights.last());
    }
}

/// A disabled add-on contributes nothing, whatever the weights.
pub proof fn law_disabled_addon_counts_nothing(addon: CountryAddon, weights: Seq<BasketWeight>)
    requires
        !addon.enabled,
    ensures
        oracle::addon_contribution(addon, weights) == 0,
{
    oracle::lemma_disabled_addon(addon, weights);
}

/// A weight counts only through enabled add-ons of its country: without one, or when it is
/// itself disabled, it does not change the index.
pub proof fn law_unmatched_weight_counts_nothing(
    addons: Seq<CountryAddon>,
    weights: Seq<BasketWeight>,
    weight: BasketWeight,
)
    requires
        !weight.enabled || forall|i: int|
            0 <= i < addons.len() ==> !(#[trigger] addons[i]).enabled || addons[i].country_code
                != weight.country_code,
    ensures
        oracle::basket_contribution(addons, weights.push(weight)) == oracle::basket_contribution(
            addons,
            weights,
        ),
    decreases addons.len(),
{
    if addons.len() > 0 {
        let rest = addons.drop_last();
        assert forall|i: int| 0 <= i < rest.len() && weight.enabled implies !(
        #[trigger] rest[i]).enabled || rest[i].country_code != weight.country_code by {
            assert(rest[i] == addons[i]);
        }
        law_unmatched_weight_counts_nothing(rest, weights, weight);
        assert(addons[addons.len() - 1] == addons.last());
        assert(weights.push(weight).drop_last() =~= weights);
    }
}

/// In a table that names an add-on's country once, the add-on counts exactly through that entry.
pub proof fn law_matched_addon_counts_once(
    addon: CountryAddon,
    weights: Seq<BasketWeight>,
    i: int,
)
    requires
        0 <= i < weights.len(),
        weights[i].country_code == addon.country_code,
        oracle::weight_codes(weights).no_duplicates(),
    ensures
        oracle::addon_contribution(addon, weights) == oracle::pair_contribution(addon, weights[i]),
    decreases weights.len(),
{
    let codes = oracle::weight_codes(weights);
    let rest = weights.drop_last();
    let last = weights.len() - 1;
    assert forall|j: int| 0 <= j < weights.len() && j != i implies weights[j].country_code
        != addon.country_code by {
        assert(codes[j] != codes[i]);
    }
    if i == last {
        assert forall|j: int| 0 <= j < rest.len() implies !(#[trigger] rest[j]).enabled
            || rest[j].country_code != addon.country_code by {
            assert(rest[j] == weights[j]);
        }
        law_unweighted_addon_counts_nothing(addon, rest);
    } else {
        assert(oracle::weight_codes(rest) =~= codes.drop_last());
        law_matched_addon_counts_once(addon, rest, i);
        assert(weights.last().country_code != addon.country_code);
    }
}

/// The index price is the tariff index as a fraction, and lies between zero and five.
pub proof fn law_index_price_range(oracle: TariffOracle)
    ensures
        0 <= oracle.index_bps() <= 50_000,
        0 <= funding::index_price(oracle) <= 5 * Q64,
{
}

/// The add-on that the oracle holds for a country.
pub open spec fn addon_of(oracle: TariffOracle, code: [u8; 2]) -> Option<CountryAddon> {
    if oracle.addon_slot(code) < oracle.addon_len {
        Some(oracle.country_addons[oracle.addon_slot(code)])
    } else {
        None
    }
}

/// The weight that the oracle holds for a country.
pub open spec fn weight_of(oracle: TariffOracle, code: [u8; 2]) -> Option<BasketWeight> {
    if oracle.weight_slot(code) < oracle.weight_len {
        Some(oracle.basket_weights[oracle.weight_slot(code)])
    } else {
        None
    }
}

/// An add-on that was set is read back, and no other country's add-on changes.
pub proof fn law_set_addon_is_read_back(
    oracle: TariffOracle,
    code: [u8; 2],
    bps: i16,
    enabled: bool,
    now: i64,
    other: [u8; 2],
)
    requires
        oracle.in_capacity(),
        oracle.addon_slot(code) < oracle::MAX_COUNTRY_ADDONS,
    ensures
        ({
            let after = oracle.with_addon(code, bps, enabled, now);
            let entry = addon_of(after, code);
            &&& entry is Some
            &&& entry->Some_0.country_code == code
            &&& entry->Some_0.addon_bps == bps
            &&& entry->Some_0.enabled == enabled
            &&& other != code ==> addon_of(after, other) == addon_of(oracle, other)
        }),
{
    let after = oracle.with_addon(code, bps, enabled, now);
    let slot = oracle.addon_slot(code);
    let codes = oracle::addon_codes(oracle.addons());
    let codes_after = oracle::addon_codes(after.addons());
    oracle.lemma_with_addon(code, bps, enabled, now);
    oracle::lemma_first_slot(codes, code);
    oracle::lemma_first_slot(codes, other);
    assert(codes_after =~= if slot < oracle.addon_len {
        codes
    } else {
        codes.push(code)
    });
    oracle::lemma_first_slot_is(codes_after, code, slot);
    if other != code {
        let place = oracle.addon_slot(other);
        if place < oracle.addon_len {
            oracle::lemma_first_slot_is(codes_after, other, place);
        } else {
            assert forall|j: int| 0 <= j < codes_after.len() implies codes_after[j] != other by {
                if j < codes.len() {
                    assert(codes_after[j] == codes[j]);
                }
            }
            oracle::lemma_first_slot_is(codes_after, other, codes_after.len() as int);
        }
    }
}

/// A weight that was set is read back, and no other country's weight changes.
pub proof fn law_set_weight_is_read_back(
    oracle: TariffOracle,
    code: [u8; 2],
    bps: u16,
    enabled: bool,
    now: i64,
    other: [u8; 2],
)
    requires
        oracle.in_capacity(),
        oracle.weight_slot(code) < oracle::MAX_BASKET_WEIGHTS,
    ensures
        ({
            let after = oracle.with_weight(code, bps, enabled, now);
            let entry = weight_of(after, code);
            &&& entry is Some
            &&& entry->Some_0.country_code == code
            &&& entry->Some_0.weight_bps == bps
            &&& entry->Some_0.enabled == enabled
            &&& other != code ==> weight_of(after, other) == weight_of(oracle, other)
        }),
{
    let after = oracle.with_weight(code, bps, enabled, now);
    let slot = oracle.weight_slot(code);
    let codes = oracle::weight_codes(oracle.weights());
    let codes_after = oracle::weight_codes(after.weights());
    oracle.lemma_with_weight(code, bps, enabled, now);
    oracle::lemma_first_slot(codes, code);
    oracle::lemma_first_slot(codes, other);
    assert(codes_after =~= if slot < oracle.weight_len {
        codes
    } else {
        codes.push(code)
    });
    oracle::lemma_first_slot_is(codes_after, code, slot);
    if other != code {
        let place = oracle.weight_slot(other);
        if place < oracle.weight_len {
            oracle::lemma_first_slot_is(codes_after, other, place);
        } else {
            assert forall|j: int| 0 <= j < codes_after.len() implies codes_after[j] != other by {
                if j < codes.len() {
                    assert(codes_after[j] == codes[j]);
                }
            }
            oracle::lemma_first_slot_is(codes_after, other, codes_after.len() as int);
        }
    }
}

/// Setting a country's add-on again replaces what was set before.
pub proof fn law_last_addon_wins(
    oracle: TariffOracle,
    code: [u8; 2],
    bps1: i16,
    enabled1: bool,
    time1: i64,
    bps2: i16,
    enabled2: bool,
    time2: i64,
)
    requires
        oracle.in_capacity(),
        oracle.addon_slot(code) < oracle::MAX_COUNTRY_ADDONS,
    ensures
        oracle.with_addon(code, bps1, enabled1, time1).with_addon(code, bps2, enabled2, time2)
            == oracle.with_addon(code, bps2, enabled2, time2),
{
    let once = oracle.with_addon(code, bps1, enabled1, time1);
    let twice = once.with_addon(code, bps2, enabled2, time2);
    let direct = oracle.with_addon(code, bps2, enabled2, time2);
    let slot = oracle.addon_slot(code);
    let codes = oracle::addon_codes(oracle.addons());
    let codes_after = oracle::addon_codes(once.addons());
    oracle.lemma_with_addon(code, bps1, enabled1, time1);
    oracle::lemma_first_slot(codes, code);
    assert(codes_after =~= if slot < oracle.addon_len {
        codes
    } else {
        codes.push(code)
    });
    oracle::lemma_first_slot_is(codes_after, code, slot);
    assert(twice.country_addons@ =~= direct.country_addons@);
    assert(twice.country_addons =~= direct.country_addons);
}

/// Setting a country's weight again replaces what was set before.
pub proof fn law_last_weight_wins(
    oracle: TariffOracle,
    code: [u8; 2],
    bps1: u16,
    enabled1: bool,
    time1: i64,
    bps2: u16,
    enabled2: bool,
    time2: i64,
)
    requires
        oracle.in_capacity(),
        oracle.weight_slot(code) < oracle::MAX_BASKET_WEIGHTS,
    ensures
        oracle.with_weight(code, bps1, enabled1, time1).with_weight(code, bps2, enabled2, time2)
            == oracle.with_weight(code, bps2, enabled2, time2),
{
    let once = oracle.with_weight(code, bps1, enabled1, time1);
    let twice = once.with_weight(code, bps2, enabled2, time2);
    let direct = oracle.with_weight(code, bps2, enabled2, time2);
    let slot = oracle.weight_slot(code);
    let codes = oracle::weight_codes(oracle.weights());
    let codes_after = oracle::weight_codes(once.weights());
    oracle.lemma_with_weight(code, bps1, enabled1, time1);
    oracle::lemma_first_slot(codes, code);
    assert(codes_after =~= if slot < oracle.weight_len {
        codes
    } else {
        codes.push(code)
    });
    oracle::lemma_first_slot_is(codes_after, code, slot);
    assert(twice.basket_weights@ =~= direct.basket_weights@);
    assert(twice.basket_weights =~= direct.basket_weights);
}

/// A full table takes no new country, and still takes every country that it names.
pub proof fn law_full_table_takes_only_its_countries(oracle: TariffOracle, code: [u8; 2])
    requires
        oracle.in_capacity(),
    ensures
        oracle.addon_slot(code) >= oracle::MAX_COUNTRY_ADDONS <==> oracle.addon_len
            == oracle::MAX_COUNTRY_ADDONS && addon_of(oracle, code) is None,
        oracle.weight_slot(code) >= oracle::MAX_BASKET_WEIGHTS <==> oracle.weight_len
            == oracle::MAX_BASKET_WEIGHTS && weight_of(oracle, code) is None,
{
    oracle::lemma_first_slot(oracle::addon_codes(oracle.addons()), code);
    oracle::lemma_first_slot(oracle::weight_codes(oracle.weights()), code);
}

/// Updates keep the minimum interval: once the oracle was updated at `first`, whatever the update
/// was, the next update comes no earlier than the interval after it.
pub proof fn law_updates_keep_the_interval(
    oracle: TariffOracle,
    baseline_bps: u16,
    valid_secs: i64,
    code: [u8; 2],
    addon_bps: i16,
    weight_bps: u16,
    enabled: bool,
    first: i64,
    next: i64,
)
    ensures
        oracle.with_baseline(baseline_bps, valid_secs, first).update_refusal(next) is None ==> next
            - first >= oracle.min_update_interval_secs && next >= first,
        oracle.with_addon(code, addon_bps, enabled, first).update_refusal(next) is None ==> next
            - first >= oracle.min_update_interval_secs && next >= first,
        oracle.with_weight(code, weight_bps, enabled, first).update_refusal(next) is None ==> next
            - first >= oracle.min_update_interval_secs && next >= first,
{
}

/// Setting the baseline opens a validity window of the given length.
pub proof fn law_baseline_opens_the_validity_window(
    ctx: OracleSetBaseline,
    new_baseline_bps: u16,
    valid_secs: i64,
    now: i64,
    later: i64,
)
    requires
        oracle::set_baseline_refusal(ctx, new_baseline_bps, valid_secs, now) is None,
    ensures
        ({
            let after = ctx.oracle.with_baseline(new_baseline_bps, valid_secs, now);
            after.valid_refusal(later) is None <==> later - now <= valid_secs
        }),
{
}

/// An update never moves the baseline by more than the jump limit.
pub proof fn law_baseline_jump_is_limited(
    ctx: OracleSetBaseline,
    new_baseline_bps: u16,
    valid_secs: i64,
    now: i64,
)
    requires
        oracle::set_baseline_refusal(ctx, new_baseline_bps, valid_secs, now) is None,
    ensures
        math::magnitude(new_baseline_bps - ctx.oracle.baseline_tariff_bps)
            <= ctx.oracle.max_jump_bps_per_update,
        ctx.oracle.admin == ctx.admin,
{
}

// The virtual reserves.

/// The reserves are positive, and the quote reserve is the product over the base reserve,
/// rounded down.
pub open spec fn reserves_on_curve(market: TariffPerpMarket) -> bool {
    &&& market.base_reserve > 0
    &&& market.invariant_k > 0
    &&& market.quote_reserve == market.invariant_k as int / (market.base_reserve as int)
}

/// A swap keeps the product of the reserves, up to the rounding of the quote reserve.
pub proof fn law_swap_keeps_the_product(market: TariffPerpMarket, delta: int)
    requires
        market.swap_refusal(delta) is None,
    ensures
        ({
            let base = market.swap_base(delta);
            let quote = market.swap_quote(delta);
            &&& base > 0
            &&& base * quote <= market.invariant_k < base * (quote + 1)
        }),
{
    let k = market.invariant_k as int;
    let base = market.swap_base(delta);
    assert(base * (k / base) <= k < base * (k / base + 1)) by (nonlinear_arith)
        requires
            base > 0,
    ;
}

/// A buy takes base out, puts quote in and does not lower the mark price; a sale does the
/// reverse.
pub proof fn law_swap_moves_the_price(market: TariffPerpMarket, delta: int)
    requires
        market.swap_refusal(delta) is None,
    ensures
        delta > 0 ==> market.swap_base(delta) < market.base_reserve && market.swap_quote(delta)
            > market.quote_reserve && math::mark_price(
            market.swap_base(delta),
            market.swap_quote(delta),
        ) >= market.mark(),
        delta < 0 ==> market.swap_base(delta) > market.base_reserve && market.swap_quote(delta)
            < market.quote_reserve && math::mark_price(
            market.swap_base(delta),
            market.swap_quote(delta),
        ) <= market.mark(),
{
    let b1 = market.base_reserve as int;
    let q1 = market.quote_reserve * Q64;
    let b2 = market.swap_base(delta);
    let q2 = market.swap_quote(delta) * Q64;
    math::lemma_quotient_range(market.invariant_k as int, b2);
    if delta > 0 {
        lemma_quotient_monotonic(q1, b1, q2, b2);
    } else {
        lemma_quotient_monotonic(q2, b2, q1, b1);
    }
}

/// A larger numerator over a smaller denominator gives no smaller a quotient.
proof fn lemma_quotient_monotonic(n1: int, d1: int, n2: int, d2: int)
    requires
        0 <= n1 <= n2,
        0 < d2 <= d1,
    ensures
        n1 / d1 <= n2 / d2,
{
    assert(n1 / d1 <= n2 / d1) by (nonlinear_arith)
        requires
            0 <= n1 <= n2,
            0 < d1,
    ;
    assert(n2 / d1 <= n2 / d2) by (nonlinear_arith)
        requires
            0 <= n2,
            0 < d2 <= d1,
    ;
}

/// A new market's reserves are on the curve.
pub proof fn law_new_market_is_on_the_curve(
    ctx: InitializeMarket,
    base_reserve: i128,
    quote_reserve: i128,
    initial_margin_bps: u16,
    maintenance_margin_bps: u16,
    trade_fee_bps: u16,
    liquidation_fee_bps: u16,
    max_open_interest_base: i128,
    max_skew_base: i128,
    pyth_sol_usd_feed: Pubkey,
    now: i64,
)
    requires
        admin::initialize_market_refusal(
            base_reserve,
            quote_reserve,
            initial_margin_bps,
            maintenance_margin_bps,
            trade_fee_bps,
            liquidation_fee_bps,
        ) is None,
    ensures
        ({
            let market = admin::new_market(
                ctx,
                base_reserve,
                quote_reserve,
                initial_margin_bps,
                maintenance_margin_bps,
                trade_fee_bps,
                liquidation_fee_bps,
                max_open_interest_base,
                max_skew_base,
                pyth_sol_usd_feed,
                now,
            );
            &&& reserves_on_curve(market)
            &&& market.quote_reserve > 0
            &&& market.maintenance_margin_bps <= market.initial_margin_bps
            &&& positions_tracked(market, Seq::empty())
        }),
{
    let b = base_reserve as int;
    let q = quote_reserve as int;
    assert((b * q) / b == q && b * q > 0) by (nonlinear_arith)
        requires
            b > 0,
            q > 0,
    ;
}

/// Trades keep the reserves on the curve, and the product constant.
pub proof fn law_trade_stays_on_the_curve(market: TariffPerpMarket, pos: int, delta: int)
    requires
        math::in_i128(delta),
        reserves_on_curve(market),
        market.swap_refusal(delta) is None,
    ensures
        reserves_on_curve(trading::traded_market(market, pos, delta)),
        trading::traded_market(market, pos, delta).invariant_k == market.invariant_k,
{
    math::lemma_quotient_range(market.invariant_k as int, market.swap_base(delta));
}

/// Two swaps leave the reserves where one swap of their sum does.
pub proof fn law_swaps_add_up(market: TariffPerpMarket, first: int, second: int)
    requires
        math::in_i128(first),
        market.swap_refusal(first) is None,
    ensures
        market.after_swap(first).swap_base(second) == market.swap_base(first + second),
        market.after_swap(first).swap_quote(second) == market.swap_quote(first + second),
{
}

/// A swap and its reverse leave reserves on the curve as they were.
pub proof fn law_reverse_swap_restores_the_reserves(market: TariffPerpMarket, delta: int)
    requires
        math::in_i128(delta),
        reserves_on_curve(market),
        market.swap_refusal(delta) is None,
    ensures
        market.after_swap(delta).after_swap(-delta) == market,
{
    law_swaps_add_up(market, delta, -delta);
    math::lemma_quotient_range(market.invariant_k as int, market.base_reserve as int);
}

/// Opening, closing and liquidating keep the reserves on the curve, and the product constant.
pub proof fn law_instructions_stay_on_the_curve(
    trade: OpenPosition,
    close: ClosePosition,
    liquidation_ctx: Liquidate,
    feed: Option<PriceFeed>,
    side: u8,
    base_amount: i128,
    now: i64,
)
    ensures
        reserves_on_curve(trade.market) && trading::open_position_refusal(
            trade,
            feed,
            side,
            base_amount,
            now,
        ) is None ==> ({
            let after = trading::opened(trade, feed, side, base_amount).market;
            reserves_on_curve(after) && after.invariant_k == trade.market.invariant_k
        }),
        reserves_on_curve(close.market) && trading::close_position_refusal(close, feed, now) is None
            ==> ({
            let after = trading::closed(close, feed).market;
            reserves_on_curve(after) && after.invariant_k == close.market.invariant_k
        }),
        reserves_on_curve(liquidation_ctx.market) && liquidation::liquidate_refusal(
            liquidation_ctx,
            feed,
            now,
        ) is None ==> ({
            let after = liquidation::liquidated(liquidation_ctx, feed).market;
            reserves_on_curve(after) && after.invariant_k == liquidation_ctx.market.invariant_k
        }),
{
    if reserves_on_curve(trade.market) && trading::open_position_refusal(
        trade,
        feed,
        side,
        base_amount,
        now,
    ) is None {
        law_trade_stays_on_the_curve(
            pyth::after_feed(trade.market, feed),
            trade.margin.position_base as int,
            trading::signed_base(side, base_amount as int),
        );
    }
    if reserves_on_curve(close.market) && trading::close_position_refusal(
        close,
        feed,
        now,
    ) is None {
        law_trade_stays_on_the_curve(
            pyth::after_feed(close.market, feed),
            close.margin.position_base as int,
            -close.margin.position_base,
        );
    }
    let pos = liquidation_ctx.user_margin.position_base as int;
    if reserves_on_curve(liquidation_ctx.market) && liquidation::liquidate_refusal(
        liquidation_ctx,
        feed,
        now,
    ) is None {
        if pos == 0 {
            liquidation::lemma_flat_account_is_safe(
                pyth::after_feed(liquidation_ctx.market, feed),
                liquidation_ctx.user_margin.after_funding(
                    pyth::after_feed(liquidation_ctx.market, feed),
                ),
            );
        }
        liquidation::lemma_close_size(pos);
        law_trade_stays_on_the_curve(
            pyth::after_feed(liquidation_ctx.market, feed),
            pos,
            liquidation::close_delta(pos),
        );
    }
}

/// The spread is never in the trader's favour: a long pays no less than the swap's price, and a
/// short gets no more.
pub proof fn law_spread_is_against_the_trader(price_q64: int, spread_bps: u16)
    requires
        price_q64 >= 0,
        spread_bps <= 10_000,
    ensures
        math::spread_price(price_q64, spread_bps, 0) >= price_q64,
        0 <= math::spread_price(price_q64, spread_bps, 1) <= price_q64,
{
    let s = spread_bps as int;
    assert(price_q64 * (10_000 + s) >= price_q64 * 10_000) by (nonlinear_arith)
        requires
            price_q64 >= 0,
            s >= 0,
    ;
    assert(0 <= price_q64 * (10_000 - s) <= price_q64 * 10_000) by (nonlinear_arith)
        requires
            price_q64 >= 0,
            0 <= s <= 10_000,
    ;
}

/// Opening a position and closing it at once never makes a profit.
pub proof fn law_round_trip_gains_nothing(market: TariffPerpMarket, delta: int)
    requires
        math::in_i128(delta),
        reserves_on_curve(market),
        market.swap_refusal(delta) is None,
        market.spread_bps <= 10_000,
    ensures
        ({
            let open = trading::trade_price(market, delta, trading::side_of(delta));
            let close = trading::trade_price(
                market.after_swap(delta),
                -delta,
                trading::side_of(-delta),
            );
            margin::pnl(delta, open, close) <= 0
        }),
{
    let after = market.after_swap(delta);
    let open = trading::trade_price(market, delta, trading::side_of(delta));
    let close = trading::trade_price(after, -delta, trading::side_of(-delta));
    law_reverse_swap_restores_the_reserves(market, delta);
    math::lemma_quotient_range(market.invariant_k as int, market.swap_base(delta));
    assert(after.swap_quote(-delta) == market.quote_reserve);
    assert(after.swap_price(-delta) == market.swap_price(delta));
    trading::lemma_trade_price_nonnegative(market, delta, 0);
    law_spread_is_against_the_trader(market.swap_price(delta), market.spread_bps);
    assert(delta * (close - open) <= 0) by (nonlinear_arith)
        requires
            (delta > 0 && close <= open) || (delta < 0 && close >= open),
    ;
}

// Open interest and net position.

/// The sum of the sizes of the positions.
pub open spec fn sum_of_sizes(positions: Seq<int>) -> int
    decreases positions.len(),
{
    if positions.len() == 0 {
        0
    } else {
        sum_of_sizes(positions.drop_last()) + math::magnitude(positions.last())
    }
}

/// The sum of the positions.
pub open spec fn sum_of_positions(positions: Seq<int>) -> int
    decreases positions.len(),
{
    if positions.len() == 0 {
        0
    } else {
        sum_of_positions(positions.drop_last()) + positions.last()
    }
}

/// The market's open interest and net position are those of the positions.
pub open spec fn positions_tracked(market: TariffPerpMarket, positions: Seq<int>) -> bool {
    &&& market.open_interest_base == sum_of_sizes(positions)
    &&& market.net_position_base == sum_of_positions(positions)
}

/// Changing one position changes the sums by what it changed.
proof fn lemma_sums_after_update(positions: Seq<int>, i: int, pos: int)
    requires
        0 <= i < positions.len(),
    ensures
        sum_of_sizes(positions.update(i, pos)) == sum_of_sizes(positions) - math::magnitude(
            positions[i],
        ) + math::magnitude(pos),
        sum_of_positions(positions.update(i, pos)) == sum_of_positions(positions) - positions[i]
            + pos,
    decreases positions.len(),
{
    let after = positions.update(i, pos);
    let rest = positions.drop_last();
    if i == positions.len() - 1 {
        assert(after.drop_last() =~= rest);
    } else {
        lemma_sums_after_update(rest, i, pos);
        assert(after.drop_last() =~= rest.update(i, pos));
    }
}

/// A trade that passes the risk check keeps open interest and net position equal to the sums
/// over all positions, and within the market's limits.
pub proof fn law_trade_keeps_positions_tracked(
    market: TariffPerpMarket,
    positions: Seq<int>,
    i: int,
    delta: int,
)
    requires
        positions_tracked(market, positions),
        0 <= i < positions.len(),
        market.risk_refusal(positions[i], positions[i] + delta) is None,
    ensures
        ({
            let pos = positions[i];
            let after = trading::traded_market(market, pos, delta);
            &&& positions_tracked(after, positions.update(i, pos + delta))
            &&& 0 <= after.open_interest_base <= after.max_open_interest_base
            &&& math::magnitude(after.net_position_base as int) <= after.max_skew_base
        }),
{
    lemma_sums_after_update(positions, i, positions[i] + delta);
}

/// Opening keeps open interest and net position equal to the sums over all positions.
pub proof fn law_opening_keeps_positions_tracked(
    ctx: OpenPosition,
    feed: Option<PriceFeed>,
    side: u8,
    base_amount: i128,
    now: i64,
    positions: Seq<int>,
    i: int,
)
    requires
        positions_tracked(ctx.market, positions),
        0 <= i < positions.len(),
        positions[i] == ctx.margin.position_base,
        trading::open_position_refusal(ctx, feed, side, base_amount, now) is None,
    ensures
        ({
            let after = trading::opened(ctx, feed, side, base_amount);
            positions_tracked(
                after.market,
                positions.update(i, after.margin.position_base as int),
            )
        }),
{
    law_trade_keeps_positions_tracked(
        pyth::after_feed(ctx.market, feed),
        positions,
        i,
        trading::signed_base(side, base_amount as int),
    );
}

/// Closing keeps open interest and net position equal to the sums over all positions.
pub proof fn law_closing_keeps_positions_tracked(
    ctx: ClosePosition,
    feed: Option<PriceFeed>,
    now: i64,
    positions: Seq<int>,
    i: int,
)
    requires
        positions_tracked(ctx.market, positions),
        0 <= i < positions.len(),
        positions[i] == ctx.margin.position_base,
        trading::close_position_refusal(ctx, feed, now) is None,
    ensures
        positions_tracked(trading::closed(ctx, feed).market, positions.update(i, 0)),
        trading::closed(ctx, feed).margin.position_base == 0,
{
    law_trade_keeps_positions_tracked(
        pyth::after_feed(ctx.market, feed),
        positions,
        i,
        -positions[i],
    );
}

/// Liquidating keeps open interest and net position equal to the sums over all positions.
pub proof fn law_liquidating_keeps_positions_tracked(
    ctx: Liquidate,
    feed: Option<PriceFeed>,
    now: i64,
    positions: Seq<int>,
    i: int,
)
    requires
        positions_tracked(ctx.market, positions),
        0 <= i < positions.len(),
        positions[i] == ctx.user_margin.position_base,
        liquidation::liquidate_refusal(ctx, feed, now) is None,
    ensures
        ({
            let after = liquidation::liquidated(ctx, feed);
            positions_tracked(
                after.market,
                positions.update(i, after.user_margin.position_base as int),
            )
        }),
{
    let pos = positions[i];
    let market = pyth::after_feed(ctx.market, feed);
    if pos == 0 {
        liquidation::lemma_flat_account_is_safe(market, ctx.user_margin.after_funding(market));
    }
    liquidation::lemma_close_size(pos);
    law_trade_keeps_positions_tracked(market, positions, i, liquidation::close_delta(pos));
}

/// The net position is never larger than the open interest.
pub proof fn law_skew_is_within_open_interest(positions: Seq<int>)
    ensures
        math::magnitude(sum_of_positions(positions)) <= sum_of_sizes(positions),
    decreases positions.len(),
{
    if positions.len() > 0 {
        law_skew_is_within_open_interest(positions.drop_last());
    }
}

/// Each position is within the open interest.
proof fn lemma_position_within_sum(positions: Seq<int>, i: int)
    requires
        0 <= i < positions.len(),
    ensures
        0 <= math::magnitude(positions[i]) <= sum_of_sizes(positions),
    decreases positions.len(),
{
    let rest = positions.drop_last();
    law_skew_is_within_open_interest(rest);
    if i < rest.len() {
        lemma_position_within_sum(rest, i);
        assert(rest[i] == positions[i]);
    }
}

/// The open interest limit never stops a position from being closed: only the skew limit can.
pub proof fn law_closing_passes_unless_skewed(
    market: TariffPerpMarket,
    positions: Seq<int>,
    i: int,
)
    requires
        positions_tracked(market, positions),
        0 <= i < positions.len(),
        math::in_i128(positions[i]),
        market.open_interest_base <= market.max_open_interest_base,
        math::magnitude(market.net_position_base - positions[i]) <= market.max_skew_base,
    ensures
        market.risk_refusal(positions[i], 0) is None,
        market.open_interest_after(positions[i], 0) <= market.open_interest_base,
{
    lemma_position_within_sum(positions, i);
}

/// The open interest limit never stops a liquidation: only the skew limit can.
pub proof fn law_liquidating_passes_unless_skewed(
    market: TariffPerpMarket,
    positions: Seq<int>,
    i: int,
)
    requires
        positions_tracked(market, positions),
        0 <= i < positions.len(),
        positions[i] != 0,
        math::in_i128(positions[i]),
        market.open_interest_base <= market.max_open_interest_base,
        math::magnitude(market.net_position_base + liquidation::close_delta(positions[i]))
            <= market.max_skew_base,
    ensures
        market.risk_refusal(
            positions[i],
            positions[i] + liquidation::close_delta(positions[i]),
        ) is None,
{
    lemma_position_within_sum(positions, i);
    law_liquidation_is_partial(positions[i]);
    liquidation::lemma_close_size(positions[i]);
}

// Funding.

/// The rate of a period is capped at half a percent either way, so whole periods move the
/// funding index by no more than the cap times their number.
pub proof fn law_funding_is_capped(market: TariffPerpMarket, oracle: TariffOracle, now: i64)
    requires
        market.funding_period_secs > 0,
        now >= market.last_funding_ts,
        math::in_i128(
            market.funding_index + funding::funding_rate(market, oracle) * funding::funding_periods(
                market,
                now,
            ),
        ),
    ensures
        math::magnitude(funding::funding_rate(market, oracle)) <= funding::funding_cap(),
        funding::funding_cap() == 50 * Q64 as int / 10_000,
        math::magnitude(
            funding::funded_market(market, oracle, now).funding_index - market.funding_index,
        ) <= funding::funding_cap() * funding::funding_periods(market, now),
{
    let rate = funding::funding_rate(market, oracle);
    let cap = funding::funding_cap();
    let periods = funding::funding_periods(market, now);
    math::lemma_quotient_range(now - market.last_funding_ts, market.funding_period_secs as int);
    assert(-(cap * periods) <= rate * periods <= cap * periods) by (nonlinear_arith)
        requires
            -cap <= rate <= cap,
            periods >= 0,
    ;
}

/// Funding advances by whole periods: less than a period is left open.
pub proof fn law_funding_advances_by_whole_periods(
    market: TariffPerpMarket,
    oracle: TariffOracle,
    now: i64,
)
    requires
        market.funding_period_secs > 0,
        now >= market.last_funding_ts,
        math::in_i64(now - market.last_funding_ts),
    ensures
        ({
            let after = funding::funded_market(market, oracle, now);
            &&& after.last_funding_ts == market.last_funding_ts + funding::funding_periods(
                market,
                now,
            ) * market.funding_period_secs
            &&& after.last_funding_ts <= now < after.last_funding_ts + after.funding_period_secs
        }),
{
    funding::lemma_whole_periods(
        now - market.last_funding_ts,
        market.funding_period_secs as int,
    );
}

/// Applying funding again at the same time changes nothing.
pub proof fn law_funding_applies_once(market: TariffPerpMarket, oracle: TariffOracle, now: i64)
    requires
        market.funding_period_secs > 0,
        now >= market.last_funding_ts,
        math::in_i64(now - market.last_funding_ts),
    ensures
        ({
            let after = funding::funded_market(market, oracle, now);
            &&& funding::funding_periods(after, now) == 0
            &&& funding::funded_market(after, oracle, now) == after
        }),
{
    law_funding_advances_by_whole_periods(market, oracle, now);
    let after = funding::funded_market(market, oracle, now);
    let rest = now - after.last_funding_ts;
    let period = after.funding_period_secs as int;
    assert(rest / period == 0) by (nonlinear_arith)
        requires
            0 <= rest < period,
    ;
}

/// No funding time is lost by applying funding on the way: the periods of two steps are those
/// of one.
pub proof fn law_funding_time_is_not_lost(
    market: TariffPerpMarket,
    oracle: TariffOracle,
    first: i64,
    second: i64,
)
    requires
        market.funding_period_secs > 0,
        market.last_funding_ts <= first <= second,
        math::in_i64(second - market.last_funding_ts),
    ensures
        ({
            let after = funding::funded_market(market, oracle, first);
            funding::funding_periods(market, first) + funding::funding_periods(after, second)
                == funding::funding_periods(market, second)
        }),
{
    law_funding_advances_by_whole_periods(market, oracle, first);
    let n = funding::funding_periods(market, first);
    let dt = second - market.last_funding_ts;
    let period = market.funding_period_secs as int;
    assert((dt - n * period) / period == dt / period - n) by (nonlinear_arith)
        requires
            period > 0,
    ;
}

/// Funding is settled once: settling again moves nothing.
pub proof fn law_funding_settles_once(margin: MarginAccount, market: TariffPerpMarket)
    ensures
        margin.after_funding(market).last_funding_index == market.funding_index,
        margin.funding_refusal(market) is None ==> margin.after_funding(market).funding_due(market)
            == 0 && margin.after_funding(market).after_funding(market) == margin.after_funding(
            market,
        ),
{
    let settled = margin.after_funding(market);
    assert(settled.position_base * 0 == 0) by (nonlinear_arith);
}

/// Funding pays a short what it takes from a long of the same size, and the other way round.
pub proof fn law_funding_is_symmetric(
    long: MarginAccount,
    short: MarginAccount,
    market: TariffPerpMarket,
)
    requires
        short.position_base == -long.position_base,
        short.last_funding_index == long.last_funding_index,
    ensures
        short.funding_due(market) == -long.funding_due(market),
{
    lemma_usdc_value_odd(
        long.position_base as int,
        market.funding_index - long.last_funding_index,
    );
}

/// The value of the opposite amount is the opposite value.
proof fn lemma_usdc_value_odd(base: int, price_q64: int)
    ensures
        math::usdc_value(-base, price_q64) == -math::usdc_value(base, price_q64),
{
    assert((-base) * price_q64 == -(base * price_q64)) by (nonlinear_arith);
}

/// An account without a position owes and gets no funding.
pub proof fn law_no_position_no_funding(margin: MarginAccount, market: TariffPerpMarket)
    requires
        margin.position_base == 0,
    ensures
        margin.funding_due(market) == 0,
        margin.after_funding(market).collateral_usdc == margin.collateral_usdc,
{
    math::lemma_usdc_value_of_nothing(market.funding_index - margin.last_funding_index);
}

/// Trading, closing, withdrawing and liquidating settle the account's funding.
pub proof fn law_interactions_settle_funding(
    trade: OpenPosition,
    close: ClosePosition,
    withdrawal: WithdrawUsdc,
    liquidation_ctx: Liquidate,
    feed: Option<PriceFeed>,
    side: u8,
    base_amount: i128,
    amount: u64,
)
    ensures
        trading::opened(trade, feed, side, base_amount).margin.last_funding_index
            == trade.market.funding_index,
        trading::closed(close, feed).margin.last_funding_index == close.market.funding_index,
        collateral::withdrawn(withdrawal, feed, amount).margin.last_funding_index
            == withdrawal.market.funding_index,
        liquidation::liquidated(liquidation_ctx, feed).user_margin.last_funding_index
            == liquidation_ctx.market.funding_index,
{
}

// Positions and profit.

/// Adding to a position leaves the entry price between the old entry price and the price paid.
pub proof fn law_average_entry_lies_between(size1: int, price1: int, size2: int, price2: int)
    requires
        size1 > 0,
        size2 > 0,
    ensures
        math::least(price1, price2) <= margin::average_price(size1, price1, size2, price2),
        margin::average_price(size1, price1, size2, price2) <= math::greatest(price1, price2),
{
    let lo = math::least(price1, price2);
    let hi = math::greatest(price1, price2);
    let n = size1 * price1 + size2 * price2;
    let d = size1 + size2;
    assert(lo * d <= n <= hi * d) by (nonlinear_arith)
        requires
            lo <= price1 <= hi,
            lo <= price2 <= hi,
            size1 > 0,
            size2 > 0,
            n == size1 * price1 + size2 * price2,
            d == size1 + size2,
    ;
    if n >= 0 {
        assert(lo <= n / d <= hi) by (nonlinear_arith)
            requires
                lo * d <= n <= hi * d,
                d > 0,
        ;
    } else {
        assert(-hi <= (-n) / d <= -lo) by (nonlinear_arith)
            requires
                lo * d <= n <= hi * d,
                d > 0,
        ;
    }
}

/// Closing at the entry price realizes nothing.
pub proof fn law_closing_at_entry_realizes_nothing(base: int, entry_q64: int)
    ensures
        margin::pnl(base, entry_q64, entry_q64) == 0,
{
    assert(base * 0 == 0) by (nonlinear_arith);
}

/// A short gains what a long of the same size and entry price loses.
pub proof fn law_profit_is_symmetric(base: int, entry_q64: int, price_q64: int)
    ensures
        margin::pnl(-base, entry_q64, price_q64) == -margin::pnl(base, entry_q64, price_q64),
{
    lemma_usdc_value_odd(base, price_q64 - entry_q64);
}

/// The equity of an account without a position is its collateral.
pub proof fn law_flat_equity_is_collateral(margin: MarginAccount, market: TariffPerpMarket)
    requires
        margin.position_base == 0,
    ensures
        margin.equity(market) == margin.collateral_usdc,
        margin.notional(market) == 0,
{
    math::lemma_usdc_value_of_nothing(market.mark() - margin.entry_price_q64);
    math::lemma_usdc_value_of_nothing(market.mark());
}

// Margin.

/// An account that meets the initial requirement cannot be liquidated at the same prices.
pub proof fn law_initial_margin_protects(market: TariffPerpMarket, margin: MarginAccount)
    requires
        market.maintenance_margin_bps <= market.initial_margin_bps,
        trading::initial_margin_refusal(market, margin) is None,
    ensures
        liquidation::liquidatable_refusal(market, margin) == Some(TariffError::NotLiquidatable),
{
    let size = math::magnitude(margin.position_base as int);
    let notional = margin.notional(market);
    math::lemma_quotient_range(
        market.quote_reserve * Q64,
        market.base_reserve as int,
    );
    math::lemma_usdc_value_nonnegative(size, market.mark());
    let low = market.maintenance_margin_bps as int;
    let high = market.initial_margin_bps as int;
    assert(0 <= notional * low <= notional * high) by (nonlinear_arith)
        requires
            notional >= 0,
            0 <= low <= high,
    ;
}

/// A trade leaves the account with its initial margin, and so out of reach of a liquidation.
pub proof fn law_trade_leaves_the_account_safe(
    ctx: OpenPosition,
    feed: Option<PriceFeed>,
    side: u8,
    base_amount: i128,
    now: i64,
)
    requires
        ctx.market.maintenance_margin_bps <= ctx.market.initial_margin_bps,
        trading::open_position_refusal(ctx, feed, side, base_amount, now) is None,
    ensures
        ({
            let after = trading::opened(ctx, feed, side, base_amount);
            &&& after.margin.equity(after.market) >= trading::initial_requirement(
                after.market,
                after.margin,
            )
            &&& liquidation::liquidatable_refusal(after.market, after.margin) == Some(
                TariffError::NotLiquidatable,
            )
        }),
{
    let after = trading::opened(ctx, feed, side, base_amount);
    law_initial_margin_protects(after.market, after.margin);
}

/// A withdrawal leaves the account with its initial margin, and so out of reach of a
/// liquidation.
pub proof fn law_withdrawal_leaves_the_account_safe(
    ctx: WithdrawUsdc,
    feed: Option<PriceFeed>,
    amount: u64,
    now: i64,
)
    requires
        ctx.market.maintenance_margin_bps <= ctx.market.initial_margin_bps,
        collateral::withdraw_refusal(ctx, feed, amount, now) is None,
    ensures
        ({
            let after = collateral::withdrawn(ctx, feed, amount);
            &&& after.margin.equity(after.market) >= trading::initial_requirement(
                after.market,
                after.margin,
            )
            &&& liquidation::liquidatable_refusal(after.market, after.margin) == Some(
                TariffError::NotLiquidatable,
            )
        }),
{
    let after = collateral::withdrawn(ctx, feed, amount);
    law_initial_margin_protects(after.market, after.margin);
}

/// What an account without a position deposits, it can withdraw: neither the collateral nor the
/// margin stands in the way, and its collateral is then what it was.
pub proof fn law_deposit_can_be_withdrawn(
    deposit: DepositUsdc,
    withdrawal: WithdrawUsdc,
    feed: Option<PriceFeed>,
    amount: u64,
    now: i64,
)
    requires
        collateral::deposit_refusal(deposit, amount) is None,
        deposit.margin.position_base == 0,
        withdrawal.margin == (MarginAccount {
            collateral_usdc: (deposit.margin.collateral_usdc + amount) as u64,
            ..deposit.margin
        }),
        withdrawal.market == deposit.market,
        withdrawal.market_key == deposit.market_key,
        withdrawal.owner == deposit.owner,
        withdrawal.vault_usdc == deposit.vault_usdc,
        withdrawal.vault_authority == deposit.vault_authority,
        withdrawal.user_usdc == deposit.user_usdc,
        withdrawal.market.oracle == withdrawal.oracle_key,
        !withdrawal.market.paused,
        withdrawal.market.mark_refusal() is None,
        math::in_i128(withdrawal.market.funding_index - withdrawal.margin.last_funding_index),
        pyth::gate_refusal(
            withdrawal.market,
            withdrawal.oracle,
            withdrawal.pyth_feed.key,
            feed,
            now,
        ) is None,
    ensures
        collateral::withdraw_refusal(withdrawal, feed, amount, now) is None,
        collateral::withdrawn(withdrawal, feed, amount).margin.collateral_usdc
            == deposit.margin.collateral_usdc,
{
    let market = pyth::after_feed(withdrawal.market, feed);
    let margin = withdrawal.margin.after_funding(market);
    let delta = market.funding_index - withdrawal.margin.last_funding_index;
    law_no_position_no_funding(withdrawal.margin, market);
    law_flat_equity_is_collateral(margin, market);
    assert(0 * delta == 0) by (nonlinear_arith);
    assert(0 * market.mark() == 0) by (nonlinear_arith);
    assert(0 * market.initial_margin_bps == 0) by (nonlinear_arith);
}

// Authority.

/// Only the oracle's admin updates it, and only the market's admin sets its switches and its
/// configuration.
pub proof fn law_only_the_admin_governs(
    guardrails: OracleSetGuardrails,
    baseline: OracleSetBaseline,
    addon: OracleUpsertAddon,
    weight: OracleUpsertWeight,
    flags: SetMarketFlags,
    interval: i64,
    jump_bps: u16,
    baseline_bps: u16,
    valid_secs: i64,
    code: [u8; 2],
    weight_bps: u16,
    fee_to_insurance_bps: u16,
    funding_period_secs: i64,
    min_trade_base: i128,
    max_price_impact_bps: u16,
    spread_bps: u16,
    now: i64,
)
    ensures
        guardrails.admin != guardrails.oracle.admin ==> oracle::set_guardrails_refusal(
            guardrails,
            interval,
            jump_bps,
        ) is Some,
        baseline.admin != baseline.oracle.admin ==> oracle::set_baseline_refusal(
            baseline,
            baseline_bps,
            valid_secs,
            now,
        ) is Some,
        addon.admin != addon.oracle.admin ==> oracle::upsert_addon_refusal(addon, code, now) is Some,
        weight.admin != weight.oracle.admin ==> oracle::upsert_weight_refusal(
            weight,
            code,
            weight_bps,
            now,
        ) is Some,
        flags.admin != flags.market.admin ==> admin::market_admin_refusal(flags) is Some
            && admin::set_market_config_refusal(
            flags,
            fee_to_insurance_bps,
            funding_period_secs,
            min_trade_base,
            max_price_impact_bps,
            spread_bps,
        ) is Some,
{
}

/// Only its owner trades, deposits to or withdraws from a margin account.
pub proof fn law_only_the_owner_acts(
    deposit: DepositUsdc,
    withdrawal: WithdrawUsdc,
    trade: OpenPosition,
    close: ClosePosition,
    feed: Option<PriceFeed>,
    amount: u64,
    side: u8,
    base_amount: i128,
    now: i64,
)
    ensures
        deposit.owner != deposit.margin.owner ==> collateral::deposit_refusal(
            deposit,
            amount,
        ) is Some,
        withdrawal.owner != withdrawal.margin.owner ==> collateral::withdraw_refusal(
            withdrawal,
            feed,
            amount,
            now,
        ) is Some,
        trade.owner != trade.margin.owner ==> trading::open_position_refusal(
            trade,
            feed,
            side,
            base_amount,
            now,
        ) is Some,
        close.owner != close.margin.owner ==> trading::close_position_refusal(
            close,
            feed,
            now,
        ) is Some,
{
}

// Switches.

/// A paused market refuses withdrawals, trades, funding and liquidations.
pub proof fn law_pause_blocks(
    withdrawal: WithdrawUsdc,
    trade: OpenPosition,
    funding_ctx: ApplyFunding,
    liquidation_ctx: Liquidate,
    feed: Option<PriceFeed>,
    amount: u64,
    side: u8,
    base_amount: i128,
    now: i64,
)
    ensures
        withdrawal.market.paused ==> collateral::withdraw_refusal(
            withdrawal,
            feed,
            amount,
            now,
        ) is Some,
        trade.market.paused ==> trading::open_position_refusal(
            trade,
            feed,
            side,
            base_amount,
            now,
        ) is Some,
        funding_ctx.market.paused ==> funding::apply_funding_refusal(funding_ctx, feed, now) is Some,
        liquidation_ctx.market.paused ==> liquidation::liquidate_refusal(
            liquidation_ctx,
            feed,
            now,
        ) is Some,
{
}

/// A pause does not stop deposits: they are refused exactly when they would be without it.
pub proof fn law_deposits_ignore_the_switches(
    ctx: DepositUsdc,
    amount: u64,
    paused: bool,
    reduce_only: bool,
)
    ensures
        collateral::deposit_refusal(
            DepositUsdc {
                market: TariffPerpMarket { paused, reduce_only, ..ctx.market },
                ..ctx
            },
            amount,
        ) == collateral::deposit_refusal(ctx, amount),
{
}

/// Neither a pause nor reduce-only mode stops a position from being closed: closing is refused
/// exactly when it would be without them.
pub proof fn law_closing_ignores_the_switches(
    ctx: ClosePosition,
    feed: Option<PriceFeed>,
    now: i64,
    paused: bool,
    reduce_only: bool,
)
    ensures
        trading::close_position_refusal(
            ClosePosition {
                market: TariffPerpMarket { paused, reduce_only, ..ctx.market },
                ..ctx
            },
            feed,
            now,
        ) == trading::close_position_refusal(ctx, feed, now),
{
    let other = TariffPerpMarket { paused, reduce_only, ..ctx.market };
    let m1 = pyth::after_feed(ctx.market, feed);
    let m2 = pyth::after_feed(other, feed);
    let g = ctx.margin.after_funding(m1);
    assert(ctx.margin.after_funding(m2) == g);
    let pos = g.position_base as int;
    assert(m2.risk_refusal(pos, 0) == m1.risk_refusal(pos, 0));
    assert(trading::quote_refusal(m2, -pos) == trading::quote_refusal(m1, -pos));
    assert(trading::fill_refusal(m2, g, -pos, trading::side_of(-pos)) == trading::fill_refusal(
        m1,
        g,
        -pos,
        trading::side_of(-pos),
    ));
}

/// In reduce-only mode a trade makes the position smaller and does not turn it round.
pub proof fn law_reduce_only_reduces(
    ctx: OpenPosition,
    feed: Option<PriceFeed>,
    side: u8,
    base_amount: i128,
    now: i64,
)
    requires
        ctx.market.reduce_only,
        trading::open_position_refusal(ctx, feed, side, base_amount, now) is None,
    ensures
        ({
            let before = ctx.margin.position_base as int;
            let after = trading::opened(ctx, feed, side, base_amount).margin.position_base as int;
            &&& math::magnitude(after) < math::magnitude(before)
            &&& before > 0 ==> after >= 0
            &&& before < 0 ==> after <= 0
        }),
{
}

/// A trade that goes through is of at least the minimum size, moves the mark price by no more
/// than the limit and leaves open interest and skew within theirs.
pub proof fn law_trade_is_within_limits(
    ctx: OpenPosition,
    feed: Option<PriceFeed>,
    side: u8,
    base_amount: i128,
    now: i64,
)
    requires
        trading::open_position_refusal(ctx, feed, side, base_amount, now) is None,
    ensures
        ({
            let before = pyth::after_feed(ctx.market, feed);
            let after = trading::opened(ctx, feed, side, base_amount).market;
            let delta = trading::signed_base(side, base_amount as int);
            &&& base_amount >= ctx.market.min_trade_base
            &&& trading::impact_bps(before, delta) <= ctx.market.max_price_impact_bps
            &&& 0 <= after.open_interest_base <= ctx.market.max_open_interest_base
            &&& math::magnitude(after.net_position_base as int) <= ctx.market.max_skew_base
        }),
{
}

// The price feed.

/// Whatever lets an instruction through, the remembered publish time never goes back, and the
/// price is positive, at most a minute old and certain to a percent.
pub proof fn law_gate_admits_only_sane_prices(
    market: TariffPerpMarket,
    oracle: TariffOracle,
    feed_key: Pubkey,
    feed: Option<PriceFeed>,
    now: i64,
)
    requires
        pyth::gate_refusal(market, oracle, feed_key, feed, now) is None,
    ensures
        now <= oracle.valid_until_ts,
        feed_key == market.pyth_sol_usd_feed,
        feed is Some,
        pyth::after_feed(market, feed).last_pyth_publish_time >= market.last_pyth_publish_time,
        feed->Some_0.price.price > 0,
        0 <= now - feed->Some_0.price.publish_time <= 60,
        feed->Some_0.price.conf * 10_000 < 101 * feed->Some_0.price.price,
{
    let price = feed->Some_0.price.price as int;
    let num = feed->Some_0.price.conf * 10_000;
    assert(num < 101 * price) by (nonlinear_arith)
        requires
            price > 0,
            num / price <= 100,
    ;
}

/// The publish time that a market remembers never goes back, whichever instruction moves it.
pub proof fn law_publish_time_never_goes_back(
    withdrawal: WithdrawUsdc,
    trade: OpenPosition,
    close: ClosePosition,
    funding_ctx: ApplyFunding,
    liquidation_ctx: Liquidate,
    feed: Option<PriceFeed>,
    amount: u64,
    side: u8,
    base_amount: i128,
    now: i64,
)
    ensures
        collateral::withdraw_refusal(withdrawal, feed, amount, now) is None
            ==> collateral::withdrawn(withdrawal, feed, amount).market.last_pyth_publish_time
            >= withdrawal.market.last_pyth_publish_time,
        trading::open_position_refusal(trade, feed, side, base_amount, now) is None
            ==> trading::opened(trade, feed, side, base_amount).market.last_pyth_publish_time
            >= trade.market.last_pyth_publish_time,
        trading::close_position_refusal(close, feed, now) is None ==> trading::closed(
            close,
            feed,
        ).market.last_pyth_publish_time >= close.market.last_pyth_publish_time,
        funding::apply_funding_refusal(funding_ctx, feed, now) is None ==> pyth::after_feed(
            funding::funded_market(funding_ctx.market, funding_ctx.oracle, now),
            feed,
        ).last_pyth_publish_time >= funding_ctx.market.last_pyth_publish_time,
        liquidation::liquidate_refusal(liquidation_ctx, feed, now) is None
            ==> liquidation::liquidated(liquidation_ctx, feed).market.last_pyth_publish_time
            >= liquidation_ctx.market.last_pyth_publish_time,
{
}

// Fees and liquidation.

/// The insurance fund's share of a trading fee is a part of it.
pub proof fn law_insurance_share_is_part_of_the_fee(market: TariffPerpMarket, fee: int)
    requires
        fee >= 0,
        market.fee_to_insurance_bps <= 10_000,
    ensures
        0 <= trading::insurance_share(market, fee) <= fee,
        market.fee_to_insurance_bps == 10_000 ==> trading::insurance_share(market, fee) == fee,
{
    let bps = market.fee_to_insurance_bps as int;
    assert(0 <= fee * bps <= fee * 10_000) by (nonlinear_arith)
        requires
            fee >= 0,
            0 <= bps <= 10_000,
    ;
}

/// A liquidation fee is split without remainder, and the insurance fund always gets its half.
pub proof fn law_liquidation_fee_is_split(fee: int)
    requires
        fee >= 0,
    ensures
        liquidation::liquidator_part(fee) + liquidation::insurance_part(fee) == fee,
        0 <= liquidation::liquidator_part(fee) <= liquidation::insurance_part(fee),
        fee > 0 ==> liquidation::insurance_part(fee) > 0,
{
}

/// The insurance fund never pays more than it holds, than the debt or than its cap.
pub proof fn law_cover_is_bounded(
    market: TariffPerpMarket,
    margin: MarginAccount,
    insurance_balance: int,
)
    requires
        insurance_balance >= 0,
    ensures
        ({
            let covered = liquidation::cover(market, margin, insurance_balance);
            &&& 0 <= covered <= insurance_balance
            &&& covered <= liquidation::debt(market, margin)
            &&& covered <= market.max_insurance_payout_per_liq_usdc
        }),
{
}

/// A liquidation closes a fifth of the position, at least the smallest unit, and never turns it
/// round.
pub proof fn law_liquidation_is_partial(pos: int)
    requires
        pos != 0,
    ensures
        math::magnitude(pos) >= 5 ==> liquidation::close_size(pos) == math::magnitude(pos) / 5,
        math::magnitude(pos) < 5 ==> liquidation::close_size(pos) == 1,
        math::magnitude(pos + liquidation::close_delta(pos)) == math::magnitude(pos)
            - liquidation::close_size(pos),
        math::magnitude(pos + liquidation::close_delta(pos)) < math::magnitude(pos),
        pos > 0 ==> pos + liquidation::close_delta(pos) >= 0,
        pos < 0 ==> pos + liquidation::close_delta(pos) <= 0,
{
    liquidation::lemma_close_size(pos);
}

/// A liquidation takes the closed part out of the open interest.
pub proof fn law_liquidation_lowers_open_interest(market: TariffPerpMarket, margin: MarginAccount)
    requires
        margin.position_base != 0,
        liquidation::close_part_refusal(market, margin) is None,
    ensures
        liquidation::liquidated_market(market, margin).open_interest_base
            == market.open_interest_base - liquidation::close_size(margin.position_base as int),
{
    law_liquidation_is_partial(margin.position_base as int);
}

/// An account that is still below its maintenance requirement after a liquidation can be
/// liquidated again.
pub proof fn law_account_below_maintenance_stays_liquidatable(
    ctx: Liquidate,
    feed: Option<PriceFeed>,
    now: i64,
)
    requires
        liquidation::liquidate_refusal(ctx, feed, now) is None,
        ({
            let after = liquidation::liquidated(ctx, feed);
            after.user_margin.equity(after.market) < liquidation::maintenance_requirement(
                after.market,
                after.user_margin,
            )
        }),
    ensures
        ({
            let after = liquidation::liquidated(ctx, feed);
            &&& after.user_margin.after_funding(after.market) == after.user_margin
            &&& liquidation::liquidatable_refusal(after.market, after.user_margin) is None
        }),
{
    let after = liquidation::liquidated(ctx, feed);
    assert(after.user_margin.position_base * 0 == 0) by (nonlinear_arith);
}

/// A liquidation charges no more than the account has, and an account in debt is left with no
/// collateral.
pub proof fn law_liquidation_charges_what_there_is(
    market: TariffPerpMarket,
    margin: MarginAccount,
)
    requires
        margin.position_base != 0,
        liquidation::close_part_refusal(market, margin) is None,
    ensures
        0 <= liquidation::fee_paid(market, margin),
        liquidation::fee_paid(market, margin) <= liquidation::partly_closed(
            market,
            margin,
        ).collateral_usdc,
        liquidation::fee_paid(market, margin) <= liquidation::liquidation_fee(
            market,
            margin.position_base as int,
        ),
        liquidation::debt(market, margin) > 0 ==> liquidation::liquidated_margin(
            market,
            margin,
        ).collateral_usdc == 0,
{
    let pos = margin.position_base as int;
    let delta = liquidation::close_delta(pos);
    let shift = math::magnitude(market.swap_quote(delta) - market.quote_reserve);
    liquidation::lemma_close_size(pos);
    math::lemma_quotient_range(shift * Q64, math::magnitude(delta));
    math::lemma_usdc_value_range(liquidation::close_size(pos), market.swap_price(delta));
    math::lemma_usdc_value_nonnegative(liquidation::close_size(pos), market.swap_price(delta));
    math::lemma_fee_range(liquidation::closed_notional(market, pos), market.liquidation_fee_bps);
}

} // verus!
