//! The SOL/USD price feed, used as a sanity gate and not as the tariff index.

use crate::accounts;
use crate::accounts::Pubkey;
use crate::error;
use crate::error::TariffError;
use crate::market::TariffPerpMarket;
use crate::math;
use crate::math::BPS_DENOM_U64;
use crate::oracle::TariffOracle;
use anchor_lang::prelude::AccountInfo;
use pyth_sdk_solana::PythError;
use vstd::prelude::*;

verus! {

/// Greatest age of a price, in seconds.
pub const PYTH_MAX_STALENESS_SECS_U64: u64 = 60;

/// Greatest age of a price, in seconds.
pub const PYTH_MAX_STALENESS_SECS_I64: i64 = 60;

/// Greatest confidence interval, in basis points of the price.
pub const PYTH_MAX_CONF_BPS: u64 = 100;

/// A price with its confidence interval, both scaled by ten to the power `expo`.
#[derive(Clone, Copy, Debug, PartialEq, Eq, Structural)]
pub struct Price {
    pub price: i64,
    pub conf: u64,
    pub expo: i32,
    pub publish_time: i64,
}

/// A price feed: its identifier, its price and its moving average.
#[derive(Clone, Copy, Debug, PartialEq, Eq)]
pub struct PriceFeed {
    pub id: [u8; 32],
    pub price: Price,
    pub ema_price: Price,
}

/// A price feed account as it was handed in.
#[derive(Clone, Debug, PartialEq, Eq)]
pub struct PythFeedAccount {
    pub key: Pubkey,
    pub data: Vec<u8>,
}

/// `pyth_sdk_solana::PythError`, the reason why an account is not a price feed.
#[verifier::external_type_specification]
#[verifier::external_body]
pub struct ExPythError(PythError);

/// The price feed that `pyth_sdk_solana` reads from the account at address `key` with content
/// `data`, if it reads one.
pub uninterp spec fn loaded_price_feed(key: Seq<u8>, data: Seq<u8>) -> Option<PriceFeed>;

/// Calls `pyth_sdk_solana::load_price_feed_from_account_info` on an account with this address
/// and content. The contract says that what comes back is a function of the two, and leaves
/// open which function. The content is copied to where the crate's casts find it aligned.
#[verifier::external_body]
fn load_price_feed_from_account_info(key: &Pubkey, data: &Vec<u8>) -> (res: Result<
    PriceFeed,
    PythError,
>)
    ensures
        match res {
            Ok(feed) => loaded_price_feed(key.bytes@, data@) == Some(feed),
            Err(_) => loaded_price_feed(key.bytes@, data@) is None,
        },
{
    let id = anchor_lang::prelude::Pubkey::from(key.bytes);
    let mut words: Vec<u64> = bytemuck::pod_collect_to_vec(data);
    let bytes = &mut bytemuck::cast_slice_mut(&mut words)[..data.len()];
    let mut lamports: u64 = 0;
    let info = AccountInfo::new(&id, false, false, &mut lamports, bytes, &id, false, 0);
    let feed = pyth_sdk_solana::load_price_feed_from_account_info(&info)?;
    let pyth_sdk::Price { price, conf, expo, publish_time } = feed.get_price_unchecked();
    let latest = Price { price, conf, expo, publish_time };
    let pyth_sdk::Price { price, conf, expo, publish_time } = feed.get_ema_price_unchecked();
    let ema_price = Price { price, conf, expo, publish_time };
    Ok(PriceFeed { id: feed.id.to_bytes(), price: latest, ema_price })
}

/// Calls `pyth_sdk::PriceFeed::get_price_no_older_than`. The contract says that the feed's price
/// comes back unless its publish time is more than `age` seconds away from `now`, on either
/// side. The crate subtracts the two times and takes the absolute value without a check, so the
/// difference must fit.
#[verifier::external_body]
fn get_price_no_older_than(feed: &PriceFeed, now: i64, age: u64) -> (res: Option<Price>)
    requires
        -i64::MAX <= feed.price.publish_time - now <= i64::MAX,
    ensures
        res == (if math::magnitude(feed.price.publish_time - now) <= age {
            Some(feed.price)
        } else {
            None
        }),
{
    let (p, e) = (feed.price, feed.ema_price);
    pyth_sdk::PriceFeed::new(
        pyth_sdk::PriceIdentifier::new(feed.id),
        pyth_sdk::Price { price: p.price, conf: p.conf, expo: p.expo, publish_time: p.publish_time },
        pyth_sdk::Price { price: e.price, conf: e.conf, expo: e.expo, publish_time: e.publish_time },
    ).get_price_no_older_than(now, age).map(|p: pyth_sdk::Price| Price {
        price: p.price,
        conf: p.conf,
        expo: p.expo,
        publish_time: p.publish_time,
    })
}

/// Reads the price feed of an account, if it is one.
pub fn load_pyth_feed(account: &PythFeedAccount) -> (res: Option<PriceFeed>)
    ensures
        res == loaded_price_feed(account.key.bytes@, account.data@),
{
    match load_price_feed_from_account_info(&account.key, &account.data) {
        Ok(feed) => Some(feed),
        Err(_) => None,
    }
}

/// The feed's price, unless its publish time is more than the staleness bound away from `now`.
pub fn recent_price(feed: &PriceFeed, now: i64) -> (res: Option<Price>)
    ensures
        res == (if math::magnitude(feed.price.publish_time - now) <= PYTH_MAX_STALENESS_SECS_U64 {
            Some(feed.price)
        } else {
            None
        }),
{
    match feed.price.publish_time.checked_sub(now) {
        Some(diff) if diff > i64::MIN => get_price_no_older_than(
            feed,
            now,
            PYTH_MAX_STALENESS_SECS_U64,
        ),
        _ => None,
    }
}

/// When the price feed does not let a risk-moving instruction through: it could not be read, its
/// price is stale or from the future, its publish time moved backwards, its price is not
/// positive, or its confidence interval is too wide.
pub open spec fn feed_refusal(
    last_publish_time: i64,
    feed: Option<PriceFeed>,
    now: i64,
) -> Option<TariffError> {
    match feed {
        None => Some(TariffError::PythLoadFailed),
        Some(f) => {
            let age = now - f.price.publish_time;
            if math::magnitude(age) > PYTH_MAX_STALENESS_SECS_U64 {
                Some(TariffError::PythStale)
            } else if age < 0 {
                Some(TariffError::MathOverflow)
            } else if f.price.publish_time < last_publish_time {
                Some(TariffError::PythNonMonotonic)
            } else if f.price.price <= 0 {
                Some(TariffError::PythBadPrice)
            } else if f.price.conf * BPS_DENOM_U64 / (f.price.price as int) > PYTH_MAX_CONF_BPS {
                Some(TariffError::PythConfidenceTooWide)
            } else {
                None
            }
        },
    }
}

/// The market with the publish time of the feed remembered.
pub open spec fn after_feed(market: TariffPerpMarket, feed: Option<PriceFeed>) -> TariffPerpMarket {
    TariffPerpMarket { last_pyth_publish_time: feed->Some_0.price.publish_time, ..market }
}

/// Checks what a price feed account holds and remembers the publish time.
pub fn check_feed_update_market(
    market: &mut TariffPerpMarket,
    feed: &Option<PriceFeed>,
    now: i64,
) -> (res: Result<Price, TariffError>)
    ensures
        error::outcome(
            res,
            feed_refusal(old(market).last_pyth_publish_time, *feed, now),
            feed->Some_0.price,
        ),
        *final(market) == (if res is Ok {
            after_feed(*old(market), *feed)
        } else {
            *old(market)
        }),
{
    let price: Price = match feed {
        None => {
            return Err(TariffError::PythLoadFailed);
        },
        Some(f) => recent_price(f, now).ok_or(TariffError::PythStale)?,
    };
    let age: i64 = now.checked_sub(price.publish_time).ok_or(TariffError::MathOverflow)?;
    if age < 0 {
        return Err(TariffError::MathOverflow);
    }
    if age > PYTH_MAX_STALENESS_SECS_I64 {
        return Err(TariffError::PythStale);
    }
    if price.publish_time < market.last_pyth_publish_time {
        return Err(TariffError::PythNonMonotonic);
    }
    if price.price <= 0 {
        return Err(TariffError::PythBadPrice);
    }
    let abs_price: u128 = price.price as u128;
    let num: u128 = (price.conf as u128).checked_mul(BPS_DENOM_U64 as u128).ok_or(
        TariffError::MathOverflow,
    )?;
    let ratio_bps: u128 = num.checked_div(abs_price).ok_or(TariffError::MathOverflow)?;
    if ratio_bps > PYTH_MAX_CONF_BPS as u128 {
        return Err(TariffError::PythConfidenceTooWide);
    }
    market.last_pyth_publish_time = price.publish_time;
    Ok(price)
}

/// Reads the price feed account, checks what it holds and remembers the publish time.
pub fn pyth_sanity_check_update_market(
    market: &mut TariffPerpMarket,
    pyth_feed: &PythFeedAccount,
    now: i64,
) -> (res: Result<Price, TariffError>)
    ensures
        ({
            let feed = loaded_price_feed(pyth_feed.key.bytes@, pyth_feed.data@);
            &&& error::outcome(
                res,
                feed_refusal(old(market).last_pyth_publish_time, feed, now),
                feed->Some_0.price,
            )
            &&& *final(market) == (if res is Ok {
                after_feed(*old(market), feed)
            } else {
                *old(market)
            })
        }),
{
    let feed: Option<PriceFeed> = load_pyth_feed(pyth_feed);
    check_feed_update_market(market, &feed, now)
}

/// When the oracle or the price feed does not let a risk-moving instruction through.
pub open spec fn gate_refusal(
    market: TariffPerpMarket,
    oracle: TariffOracle,
    feed_key: Pubkey,
    feed: Option<PriceFeed>,
    now: i64,
) -> Option<TariffError> {
    if oracle.valid_refusal(now) is Some {
        oracle.valid_refusal(now)
    } else if feed_key != market.pyth_sol_usd_feed {
        Some(TariffError::InvalidPythFeed)
    } else {
        feed_refusal(market.last_pyth_publish_time, feed, now)
    }
}

/// Checks the oracle's validity and the price feed.
pub fn pass_gate(
    market: &mut TariffPerpMarket,
    oracle: &TariffOracle,
    feed_key: &Pubkey,
    feed: &Option<PriceFeed>,
    now: i64,
) -> (res: Result<(), TariffError>)
    ensures
        error::outcome(res, gate_refusal(*old(market), *oracle, *feed_key, *feed, now), ()),
        *final(market) == (if res is Ok {
            after_feed(*old(market), *feed)
        } else {
            *old(market)
        }),
{
    oracle.require_valid(now)?;
    accounts::require_keys_eq(feed_key, &market.pyth_sol_usd_feed, TariffError::InvalidPythFeed)?;
    check_feed_update_market(market, feed, now)?;
    Ok(())
}

} // verus!
