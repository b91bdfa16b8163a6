//! Funding: in whole periods, the funding index follows the mark price's distance from the index
//! price.

use crate::accounts;
use crate::accounts::Pubkey;
use crate::error;
use crate::error::TariffError;
use crate::events::FundingAppliedEvent;
use crate::market::TariffPerpMarket;
use crate::math;
use crate::math::Q64;
use crate::oracle::TariffOracle;
use crate::pyth;
use crate::pyth::PriceFeed;
use crate::pyth::PythFeedAccount;
use vstd::prelude::*;

verus! {

/// Greatest funding rate of a period, in basis points, in either direction.
pub const MAX_FUNDING_RATE_BPS_PER_PERIOD: i128 = 50;

/// The part of the price difference that one period funds: one in this many.
pub const FUNDING_DIVISOR: i128 = 8;

/// The accounts of `apply_funding`.
#[derive(Clone, Debug, PartialEq, Eq)]
pub struct ApplyFunding {
    pub oracle_key: Pubkey,
    pub oracle: TariffOracle,
    pub market_key: Pubkey,
    pub market: TariffPerpMarket,
    pub pyth_feed: PythFeedAccount,
}

/// The greatest funding rate of a period, as a Q64.64 fraction.
pub open spec fn funding_cap() -> int {
    math::bps_as_q64(MAX_FUNDING_RATE_BPS_PER_PERIOD as int)
}

/// The index price that the oracle gives.
pub open spec fn index_price(oracle: TariffOracle) -> int {
    math::bps_as_q64(oracle.index_bps())
}

/// The funding rate of a period: a part of how far the mark is above the index, capped.
pub open spec fn funding_rate(market: TariffPerpMarket, oracle: TariffOracle) -> int {
    math::clamp(
        math::trunc_div(market.mark() - index_price(oracle), FUNDING_DIVISOR as int),
        -funding_cap(),
        funding_cap(),
    )
}

/// The whole funding periods that have passed since funding was last applied.
pub open spec fn funding_periods(market: TariffPerpMarket, now: i64) -> int {
    (now - market.last_funding_ts) / (market.funding_period_secs as int)
}

/// When funding cannot be applied.
pub open spec fn apply_funding_refusal(
    ctx: ApplyFunding,
    feed: Option<PriceFeed>,
    now: i64,
) -> Option<TariffError> {
    let gate = pyth::gate_refusal(ctx.market, ctx.oracle, ctx.pyth_feed.key, feed, now);
    let dt = now - ctx.market.last_funding_ts;
    let periods = funding_periods(ctx.market, now);
    let delta = funding_rate(ctx.market, ctx.oracle) * periods;
    if ctx.market.oracle != ctx.oracle_key {
        Some(TariffError::InvalidOracle)
    } else if ctx.market.paused {
        Some(TariffError::Paused)
    } else if gate is Some {
        gate
    } else if dt < 0 || !math::in_i64(dt) {
        Some(TariffError::MathOverflow)
    } else if ctx.market.funding_period_secs <= 0 {
        Some(TariffError::InvalidConfig)
    } else if periods == 0 {
        None
    } else if ctx.market.mark_refusal() is Some {
        ctx.market.mark_refusal()
    } else {
        error::overflow_unless(math::in_i128(ctx.market.funding_index + delta))
    }
}

/// The market after funding was applied: the index grew by the rate of each whole period, and
/// the part of a period that remains is left for later.
pub open spec fn funded_market(
    market: TariffPerpMarket,
    oracle: TariffOracle,
    now: i64,
) -> TariffPerpMarket {
    let periods = funding_periods(market, now);
    if periods == 0 {
        market
    } else {
        TariffPerpMarket {
            funding_index: (market.funding_index + funding_rate(market, oracle) * periods) as i128,
            last_funding_ts: (market.last_funding_ts + periods
                * market.funding_period_secs) as i64,
            ..market
        }
    }
}

/// What applying funding reports: nothing where no whole period has passed.
pub open spec fn funding_event(ctx: ApplyFunding, now: i64) -> Option<FundingAppliedEvent> {
    let periods = funding_periods(ctx.market, now);
    if periods == 0 {
        None
    } else {
        Some(
            FundingAppliedEvent {
                market: ctx.market_key,
                dt: (periods * ctx.market.funding_period_secs) as i64,
                rate_q64: funding_rate(ctx.market, ctx.oracle) as i128,
                funding_index: funded_market(ctx.market, ctx.oracle, now).funding_index,
                mark_q64: ctx.market.mark() as i128,
                index_q64: index_price(ctx.oracle) as i128,
                ts: now,
            },
        )
    }
}

/// Applies funding for the whole periods that have passed, given what the price feed account
/// holds.
pub fn apply_funding_with_feed(
    ctx: &mut ApplyFunding,
    feed: &Option<PriceFeed>,
    now: i64,
) -> (res: Result<Option<FundingAppliedEvent>, TariffError>)
    requires
        old(ctx).oracle.in_capacity(),
    ensures
        error::outcome(
            res,
            apply_funding_refusal(*old(ctx), *feed, now),
            funding_event(*old(ctx), now),
        ),
        *final(ctx) == (if res is Ok {
            ApplyFunding {
                market: pyth::after_feed(
                    funded_market(old(ctx).market, old(ctx).oracle, now),
                    *feed,
                ),
                ..*old(ctx)
            }
        } else {
            *old(ctx)
        }),
{
    accounts::require_keys_eq(&ctx.market.oracle, &ctx.oracle_key, TariffError::InvalidOracle)?;
    if ctx.market.paused {
        return Err(TariffError::Paused);
    }
    let mut market: TariffPerpMarket = ctx.market;
    pyth::pass_gate(&mut market, &ctx.oracle, &ctx.pyth_feed.key, feed, now)?;
    let dt: i64 = now.checked_sub(market.last_funding_ts).ok_or(TariffError::MathOverflow)?;
    if dt < 0 {
        return Err(TariffError::MathOverflow);
    }
    let period: i64 = market.funding_period_secs;
    if period <= 0 {
        return Err(TariffError::InvalidConfig);
    }
    proof {
        math::lemma_quotient_range(dt as int, period as int);
        lemma_whole_periods(dt as int, period as int);
    }
    let periods: i64 = dt.checked_div(period).ok_or(TariffError::MathOverflow)?;
    if periods <= 0 {
        ctx.market = market;
        return Ok(None);
    }
    let mark_q64: i128 = market.mark_price_q64()?;
    let index_q64: i128 = market.index_price_q64(&ctx.oracle)?;
    proof {
        math::lemma_quotient_range(
            market.quote_reserve * Q64,
            market.base_reserve as int,
        );
        ctx.oracle.lemma_index_range();
    }
    let diff_q64: i128 = mark_q64.checked_sub(index_q64).ok_or(TariffError::MathOverflow)?;
    let raw_rate_q64: i128 = diff_q64.checked_div(FUNDING_DIVISOR).ok_or(
        TariffError::MathOverflow,
    )?;
    let cap_q64: i128 = math::bps_i128_to_q64(MAX_FUNDING_RATE_BPS_PER_PERIOD)?;
    let neg_cap: i128 = math::i128_neg(cap_q64)?;
    let rate_q64: i128 = math::clamp_i128(raw_rate_q64, neg_cap, cap_q64)?;
    let periods_i128: i128 = periods as i128;
    proof {
        lemma_rate_product_range(rate_q64 as int, periods as int);
    }
    let delta_index: i128 = rate_q64.checked_mul(periods_i128).ok_or(TariffError::MathOverflow)?;
    let funding_index: i128 = market.funding_index.checked_add(delta_index).ok_or(
        TariffError::MathOverflow,
    )?;
    let advance: i64 = periods.checked_mul(period).ok_or(TariffError::MathOverflow)?;
    let last_funding_ts: i64 = market.last_funding_ts.checked_add(advance).ok_or(
        TariffError::MathOverflow,
    )?;
    market.funding_index = funding_index;
    market.last_funding_ts = last_funding_ts;
    ctx.market = market;
    Ok(
        Some(
            FundingAppliedEvent {
                market: ctx.market_key,
                dt: advance,
                rate_q64,
                funding_index,
                mark_q64,
                index_q64,
                ts: now,
            },
        ),
    )
}

/// Applies funding for the whole periods that have passed.
pub fn apply_funding(ctx: &mut ApplyFunding, now: i64) -> (res: Result<
    Option<FundingAppliedEvent>,
    TariffError,
>)
    requires
        old(ctx).oracle.in_capacity(),
    ensures
        ({
            let feed = pyth::loaded_price_feed(
                old(ctx).pyth_feed.key.bytes@,
                old(ctx).pyth_feed.data@,
            );
            &&& error::outcome(
                res,
                apply_funding_refusal(*old(ctx), feed, now),
                funding_event(*old(ctx), now),
            )
            &&& *final(ctx) == (if res is Ok {
                ApplyFunding {
                    market: pyth::after_feed(
                        funded_market(old(ctx).market, old(ctx).oracle, now),
                        feed,
                    ),
                    ..*old(ctx)
                }
            } else {
                *old(ctx)
            })
        }),
{
    let feed: Option<PriceFeed> = pyth::load_pyth_feed(&ctx.pyth_feed);
    apply_funding_with_feed(ctx, &feed, now)
}

/// The whole periods in `dt` take no longer than `dt`, and less than a period remains.
pub proof fn lemma_whole_periods(dt: int, period: int)
    requires
        dt >= 0,
        period > 0,
    ensures
        0 <= (dt / period) * period <= dt < (dt / period) * period + period,
{
    assert(0 <= (dt / period) * period <= dt < (dt / period) * period + period)
        by (nonlinear_arith)
        requires
            dt >= 0,
            period > 0,
    ;
}

/// A capped rate over the periods of any time span fits an `i128`.
pub proof fn lemma_rate_product_range(rate: int, periods: int)
    requires
        -funding_cap() <= rate <= funding_cap(),
        0 <= periods <= i64::MAX,
    ensures
        math::in_i128(rate * periods),
{
    assert(funding_cap() <= 92_233_720_368_547_759);
    assert(-92_233_720_368_547_759 * i64::MAX <= rate * periods <= 92_233_720_368_547_759
        * i64::MAX) by (nonlinear_arith)
        requires
            -92_233_720_368_547_759 <= rate <= 92_233_720_368_547_759,
            0 <= periods <= i64::MAX,
    ;
}

} // verus!
