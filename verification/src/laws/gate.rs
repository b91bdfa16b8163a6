//! What the price feed and the oracle's window let through.

use crate::accounts::Pubkey;
use crate::error::TariffError;
use crate::market::TariffPerpMarket;
use crate::oracle::TariffOracle;
use crate::pyth;
use crate::pyth::PriceFeed;
use vstd::prelude::*;

verus! {

/// A feed passes exactly when it could be read, its price is at most a minute old and not from
/// the future, it was not published before the last one that passed, it is positive, and less
/// than 101 basis points uncertain. The first of these that fails is reported.
pub proof fn law_feed_passes_when_fresh_positive_and_certain(
    last: i64,
    feed: Option<PriceFeed>,
    now: i64,
)
    ensures
        feed is None ==> pyth::feed_refusal(last, feed, now) == Some(TariffError::PythLoadFailed),
        feed is Some ==> ({
            let refusal = pyth::feed_refusal(last, feed, now);
            let price = feed->Some_0.price;
            let age = now - price.publish_time;
            let near = -60 <= age <= 60;
            &&& !near ==> refusal == Some(TariffError::PythStale)
            &&& near && age < 0 ==> refusal == Some(TariffError::MathOverflow)
            &&& near && age >= 0 && price.publish_time < last ==> refusal == Some(
                TariffError::PythNonMonotonic,
            )
            &&& near && age >= 0 && price.publish_time >= last && price.price <= 0 ==> refusal
                == Some(TariffError::PythBadPrice)
            &&& near && age >= 0 && price.publish_time >= last && price.price > 0 && price.conf
                * 10_000 >= 101 * price.price ==> refusal == Some(
                TariffError::PythConfidenceTooWide,
            )
            &&& near && age >= 0 && price.publish_time >= last && price.price > 0 && price.conf
                * 10_000 < 101 * price.price ==> refusal is None
        }),
{
    if feed is Some && feed->Some_0.price.price > 0 {
        let p = feed->Some_0.price.price as int;
        let n = feed->Some_0.price.conf * 10_000;
        assert(n / p > 100 <==> n >= 101 * p) by (nonlinear_arith)
            requires
                p > 0,
                n >= 0,
        ;
    }
}

/// A feed that passed is remembered by its publish time, and nothing else of the market changes.
pub proof fn law_only_the_publish_time_is_remembered(market: TariffPerpMarket, feed: PriceFeed)
    ensures
        ({
            let after = pyth::after_feed(market, Some(feed));
            &&& after.last_pyth_publish_time == feed.price.publish_time
            &&& after == (TariffPerpMarket {
                last_pyth_publish_time: after.last_pyth_publish_time,
                ..market
            })
        }),
{
}

/// Oracle and feed are sound when the oracle is valid, the feed is the market's and the feed
/// passes, and reports the first of these that fails. It reads nothing else of the market or the
/// oracle.
pub proof fn law_gate_opens_for_the_markets_feed(
    market: TariffPerpMarket,
    oracle: TariffOracle,
    feed_key: Pubkey,
    feed: Option<PriceFeed>,
    now: i64,
)
    ensures
        ({
            let refusal = pyth::gate_refusal(market, oracle, feed_key, feed, now);
            &&& now > oracle.valid_until_ts ==> refusal == Some(TariffError::OracleStale)
            &&& now <= oracle.valid_until_ts && feed_key != market.pyth_sol_usd_feed ==> refusal
                == Some(TariffError::InvalidPythFeed)
            &&& now <= oracle.valid_until_ts && feed_key == market.pyth_sol_usd_feed ==> refusal
                == pyth::feed_refusal(market.last_pyth_publish_time, feed, now)
        }),
{
}

} // verus!
