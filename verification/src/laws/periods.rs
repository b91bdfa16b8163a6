//! What funding costs, and when it is applied.

use crate::error::TariffError;
use crate::funding;
use crate::funding::ApplyFunding;
use crate::market::TariffPerpMarket;
use crate::math;
use crate::oracle::TariffOracle;
use crate::pyth;
use crate::pyth::PriceFeed;
use vstd::prelude::*;

verus! {

/// The index price is the tariff index with ten thousand basis points as one, rounded down.
pub proof fn law_index_price_is_the_index_over_ten_thousand(oracle: TariffOracle)
    ensures
        10_000 * funding::index_price(oracle) <= oracle.index_bps() * 18_446_744_073_709_551_616
            < 10_000 * funding::index_price(oracle) + 10_000,
{
}

/// The rate of a period is an eighth of how far the mark is from the index, toward zero, and no
/// more than half a percent, in both directions alike.
pub proof fn law_rate_is_an_eighth_of_the_difference_either_way(
    market: TariffPerpMarket,
    oracle: TariffOracle,
)
    ensures
        ({
            let diff = market.mark() - funding::index_price(oracle);
            let rate = funding::funding_rate(market, oracle);
            let cap = 92_233_720_368_547_758int;
            &&& 0 <= diff < 8 * cap + 8 ==> 8 * rate <= diff < 8 * rate + 8
            &&& -(8 * cap + 8) < diff <= 0 ==> 8 * rate - 8 < diff <= 8 * rate
            &&& diff >= 8 * cap + 8 ==> rate == cap
            &&& diff <= -(8 * cap + 8) ==> rate == -cap
        }),
{
}

/// Markets as far above their index as others are below theirs have the opposite rate.
pub proof fn law_opposite_differences_have_opposite_rates(
    above: TariffPerpMarket,
    above_oracle: TariffOracle,
    below: TariffPerpMarket,
    below_oracle: TariffOracle,
)
    requires
        above.mark() - funding::index_price(above_oracle) == funding::index_price(below_oracle)
            - below.mark(),
    ensures
        funding::funding_rate(above, above_oracle) == -funding::funding_rate(below, below_oracle),
{
}

/// The periods that have passed are the whole ones between the last funding and now.
pub proof fn law_periods_are_the_whole_ones(market: TariffPerpMarket, now: i64)
    requires
        market.funding_period_secs > 0,
        now >= market.last_funding_ts,
    ensures
        ({
            let passed = now - market.last_funding_ts;
            let periods = funding::funding_periods(market, now);
            periods * market.funding_period_secs <= passed < periods * market.funding_period_secs
                + market.funding_period_secs
        }),
{
    funding::lemma_whole_periods(
        now - market.last_funding_ts,
        market.funding_period_secs as int,
    );
}

/// Funding is refused for the first of these that fails: the market reads the oracle, it is not
/// paused, oracle and feed are sound, time has not run backwards, the period is positive, and once
/// a period has passed, the market has a mark price and the new index fits. Otherwise it is
/// applied.
pub proof fn law_funding_is_refused_in_order(
    ctx: ApplyFunding,
    feed: Option<PriceFeed>,
    now: i64,
)
    ensures
        ({
            let refusal = funding::apply_funding_refusal(ctx, feed, now);
            let read = ctx.market.oracle == ctx.oracle_key;
            let gate = pyth::gate_refusal(ctx.market, ctx.oracle, ctx.pyth_feed.key, feed, now);
            let passed = now - ctx.market.last_funding_ts;
            let timely = 0 <= passed <= i64::MAX;
            let period = ctx.market.funding_period_secs as int;
            let periods = funding::funding_periods(ctx.market, now);
            let index = ctx.market.funding_index + funding::funding_rate(ctx.market, ctx.oracle)
                * periods;
            let entered = read && !ctx.market.paused && gate is None && timely && period > 0;
            &&& !read ==> refusal == Some(TariffError::InvalidOracle)
            &&& read && ctx.market.paused ==> refusal == Some(TariffError::Paused)
            &&& read && !ctx.market.paused && gate is Some ==> refusal == gate
            &&& read && !ctx.market.paused && gate is None && !timely ==> refusal == Some(
                TariffError::MathOverflow,
            )
            &&& read && !ctx.market.paused && gate is None && timely && period <= 0 ==> refusal
                == Some(TariffError::InvalidConfig)
            &&& entered && passed < period ==> refusal is None
            &&& entered && passed >= period && ctx.market.mark_refusal() is Some ==> refusal
                == ctx.market.mark_refusal()
            &&& entered && passed >= period && ctx.market.mark_refusal() is None
                && !math::in_i128(index) ==> refusal == Some(TariffError::MathOverflow)
            &&& entered && passed >= period && ctx.market.mark_refusal() is None && math::in_i128(
                index,
            ) ==> refusal is None
        }),
{
    let passed = now - ctx.market.last_funding_ts;
    let period = ctx.market.funding_period_secs as int;
    if passed >= 0 && period > 0 {
        assert(passed / period == 0 <==> passed < period) by (nonlinear_arith)
            requires
                passed >= 0,
                period > 0,
        ;
    }
}

/// Applying funding moves the funding index by the rate of every whole period and the time by
/// those periods, and nothing else of the market. Before a period has passed it moves nothing.
pub proof fn law_funding_moves_index_and_time_alone(
    market: TariffPerpMarket,
    oracle: TariffOracle,
    now: i64,
)
    requires
        market.funding_period_secs > 0,
        0 <= now - market.last_funding_ts <= i64::MAX,
        math::in_i128(
            market.funding_index + funding::funding_rate(market, oracle) * funding::funding_periods(
                market,
                now,
            ),
        ),
    ensures
        ({
            let after = funding::funded_market(market, oracle, now);
            let periods = funding::funding_periods(market, now);
            &&& after.funding_index - market.funding_index == funding::funding_rate(market, oracle)
                * periods
            &&& after.last_funding_ts - market.last_funding_ts == periods
                * market.funding_period_secs
            &&& after == (TariffPerpMarket {
                funding_index: after.funding_index,
                last_funding_ts: after.last_funding_ts,
                ..market
            })
        }),
{
    let rate = funding::funding_rate(market, oracle);
    let periods = funding::funding_periods(market, now);
    assert(periods == 0 ==> rate * periods == 0) by (nonlinear_arith);
    assert(periods == 0 ==> periods * market.funding_period_secs == 0) by (nonlinear_arith);
    funding::lemma_whole_periods(
        now - market.last_funding_ts,
        market.funding_period_secs as int,
    );
}

/// Funding is reported exactly when a period has passed.
pub proof fn law_funding_is_reported_once_a_period_has_passed(ctx: ApplyFunding, now: i64)
    requires
        ctx.market.funding_period_secs > 0,
        now >= ctx.market.last_funding_ts,
    ensures
        funding::funding_event(ctx, now) is Some <==> now - ctx.market.last_funding_ts
            >= ctx.market.funding_period_secs,
{
    let passed = now - ctx.market.last_funding_ts;
    let period = ctx.market.funding_period_secs as int;
    assert(passed / period == 0 <==> passed < period) by (nonlinear_arith)
        requires
            passed >= 0,
            period > 0,
    ;
}

/// Funding that was applied is reported with the seconds of the whole periods,
/// the rate of each, the index it leaves, and the prices it compared.
pub proof fn law_funding_is_reported_as_it_was_applied(ctx: ApplyFunding, now: i64)
    requires
        ctx.market.funding_period_secs > 0,
        0 <= now - ctx.market.last_funding_ts <= i64::MAX,
        ctx.market.mark_refusal() is None,
        math::in_i128(
            ctx.market.funding_index + funding::funding_rate(ctx.market, ctx.oracle)
                * funding::funding_periods(ctx.market, now),
        ),
    ensures
        ({
            let event = funding::funding_event(ctx, now);
            let after = funding::funded_market(ctx.market, ctx.oracle, now);
            event is Some ==> ({
                let e = event->Some_0;
                &&& e.market == ctx.market_key && e.ts == now
                &&& e.dt == after.last_funding_ts - ctx.market.last_funding_ts
                &&& e.rate_q64 == funding::funding_rate(ctx.market, ctx.oracle)
                &&& e.funding_index == after.funding_index
                &&& e.mark_q64 == ctx.market.mark()
                &&& e.index_q64 == funding::index_price(ctx.oracle)
            })
        }),
{
    let passed = now - ctx.market.last_funding_ts;
    let period = ctx.market.funding_period_secs as int;
    assert(passed / period == 0 <==> passed < period) by (nonlinear_arith)
        requires
            passed >= 0,
            period > 0,
    ;
    law_funding_moves_index_and_time_alone(ctx.market, ctx.oracle, now);
    funding::lemma_whole_periods(passed, period);
    math::lemma_quotient_range(
        ctx.market.quote_reserve * math::Q64,
        ctx.market.base_reserve as int,
    );
}

} // verus!
