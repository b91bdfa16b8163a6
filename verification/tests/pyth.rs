use tariff_perp::accounts::Pubkey;
use tariff_perp::accounts::TokenAccount;
use tariff_perp::collateral::WithdrawUsdc;
use tariff_perp::collateral::withdraw_usdc;
use tariff_perp::error::TariffError;
use tariff_perp::margin::MarginAccount;
use tariff_perp::market::TariffPerpMarket;
use tariff_perp::oracle::BasketWeight;
use tariff_perp::oracle::CountryAddon;
use tariff_perp::oracle::TariffOracle;
use tariff_perp::pyth::Price;
use tariff_perp::pyth::PriceFeed;
use tariff_perp::pyth::PythFeedAccount;
use tariff_perp::pyth::check_feed_update_market;
use tariff_perp::pyth::load_pyth_feed;
use tariff_perp::pyth::pyth_sanity_check_update_market;
use tariff_perp::pyth::recent_price;
use tariff_perp::trading::OpenPosition;
use tariff_perp::trading::open_position;

const NOW: i64 = 1_700_000_000;

fn key(n: u8) -> Pubkey {
    Pubkey { bytes: [n; 32] }
}

fn oracle() -> TariffOracle {
    TariffOracle {
        admin: key(1),
        baseline_tariff_bps: 10_500,
        valid_until_ts: NOW + 86_400,
        last_updated_ts: NOW,
        confidence_bps: 100,
        min_update_interval_secs: 0,
        max_jump_bps_per_update: 50_000,
        last_baseline_bps: 10_500,
        country_addons: [CountryAddon::default(); 16],
        basket_weights: [BasketWeight::default(); 16],
        addon_len: 0,
        weight_len: 0,
        _pad0: [0; 6],
    }
}

fn market() -> TariffPerpMarket {
    TariffPerpMarket {
        admin: key(1),
        oracle: key(2),
        usdc_mint: key(3),
        vault_authority_bump: 254,
        insurance_authority_bump: 253,
        _pad0: [0; 6],
        vault_usdc: key(4),
        insurance_vault_usdc: key(5),
        pyth_sol_usd_feed: key(6),
        last_pyth_publish_time: NOW - 50,
        base_reserve: 1_000_000_000_000,
        quote_reserve: 1_000_000_000_000_000_000,
        invariant_k: 1_000_000_000_000_000_000_000_000_000_000,
        funding_index: 0,
        last_funding_ts: NOW,
        funding_period_secs: 3600,
        initial_margin_bps: 1000,
        maintenance_margin_bps: 500,
        trade_fee_bps: 10,
        liquidation_fee_bps: 100,
        max_insurance_payout_per_liq_usdc: 1_000_000_000,
        fee_to_insurance_bps: 10_000,
        min_trade_base: 10_000_000,
        max_price_impact_bps: 500,
        spread_bps: 10,
        reduce_only: false,
        paused: false,
        _pad1: [0; 2],
        open_interest_base: 0,
        net_position_base: 0,
        max_open_interest_base: 1_000_000_000_000,
        max_skew_base: 1_000_000_000_000,
    }
}

fn good_feed() -> Option<PriceFeed> {
    let price = Price { price: 15_000_000_000, conf: 10_000_000, expo: -8, publish_time: NOW - 5 };
    Some(PriceFeed { id: [6; 32], price, ema_price: price })
}

fn margin(collateral_usdc: u64) -> MarginAccount {
    MarginAccount {
        owner: key(7),
        market: key(8),
        collateral_usdc,
        position_base: 0,
        entry_price_q64: 0,
        last_funding_index: 0,
        realized_pnl_usdc: 0,
        open_notional_q64: 0,
    }
}

fn tokens(mint: u8, owner: u8, amount: u64) -> TokenAccount {
    TokenAccount { mint: key(mint), owner: key(owner), amount }
}

fn put(data: &mut Vec<u8>, at: usize, bytes: &[u8]) {
    data[at..at + bytes.len()].copy_from_slice(bytes);
}

/// A price account of the feed program: trading, with this aggregate price.
fn price_account(price: i64, conf: u64, publish_time: i64) -> Vec<u8> {
    let mut data = vec![0u8; 3312];
    put(&mut data, 0, &0xa1b2c3d4u32.to_le_bytes());
    put(&mut data, 4, &2u32.to_le_bytes());
    put(&mut data, 8, &3u32.to_le_bytes());
    put(&mut data, 20, &(-8i32).to_le_bytes());
    put(&mut data, 48, &777i64.to_le_bytes());
    put(&mut data, 72, &88i64.to_le_bytes());
    put(&mut data, 96, &publish_time.to_le_bytes());
    put(&mut data, 184, &55i64.to_le_bytes());
    put(&mut data, 192, &44u64.to_le_bytes());
    put(&mut data, 200, &33i64.to_le_bytes());
    put(&mut data, 208, &price.to_le_bytes());
    put(&mut data, 216, &conf.to_le_bytes());
    put(&mut data, 224, &1u32.to_le_bytes());
    data
}

fn account(data: Vec<u8>) -> PythFeedAccount {
    PythFeedAccount { key: key(6), data }
}

fn feed_of(price: i64, conf: u64, publish_time: i64) -> Option<PriceFeed> {
    let price = Price { price, conf, expo: -8, publish_time };
    Some(PriceFeed { id: [6; 32], price, ema_price: price })
}

fn check(feed: &Option<PriceFeed>) -> Result<Price, TariffError> {
    let mut m = market();
    let res = check_feed_update_market(&mut m, feed, NOW);
    let mut expected = market();
    if let Ok(price) = res {
        expected.last_pyth_publish_time = price.publish_time;
    }
    assert_eq!(m, expected);
    res
}

#[test]
fn a_price_account_is_read() {
    let feed = load_pyth_feed(&account(price_account(15_000_000_000, 10_000_000, NOW - 5))).unwrap();
    assert_eq!(feed.id, [6; 32]);
    assert_eq!(
        feed.price,
        Price { price: 15_000_000_000, conf: 10_000_000, expo: -8, publish_time: NOW - 5 }
    );
    assert_eq!(feed.ema_price, Price { price: 777, conf: 88, expo: -8, publish_time: NOW - 5 });
}

#[test]
fn a_halted_feed_gives_its_previous_price() {
    let mut data = price_account(15_000_000_000, 10_000_000, NOW - 5);
    put(&mut data, 224, &2u32.to_le_bytes());
    let feed = load_pyth_feed(&account(data)).unwrap();
    assert_eq!(feed.price, Price { price: 55, conf: 44, expo: -8, publish_time: 33 });
}

#[test]
fn what_is_not_a_price_account_is_not_read() {
    let good = price_account(1, 1, NOW);
    assert_eq!(load_pyth_feed(&account(vec![])), None);
    assert_eq!(load_pyth_feed(&account(good[..3311].to_vec())), None);
    for at in [0usize, 4, 8] {
        let mut bad = good.clone();
        bad[at] ^= 1;
        assert_eq!(load_pyth_feed(&account(bad)), None);
    }
    let mut longer = good.clone();
    longer.extend_from_slice(&[1, 2, 3]);
    assert_eq!(load_pyth_feed(&account(longer)), load_pyth_feed(&account(good)));
}

#[test]
fn recent_price_is_within_the_bound_on_either_side() {
    let feed = feed_of(1, 1, NOW).unwrap();
    assert_eq!(recent_price(&feed, NOW), Some(feed.price));
    assert_eq!(recent_price(&feed, NOW + 60), Some(feed.price));
    assert_eq!(recent_price(&feed, NOW + 61), None);
    assert_eq!(recent_price(&feed, NOW - 60), Some(feed.price));
    assert_eq!(recent_price(&feed, NOW - 61), None);
    let last = feed_of(1, 1, i64::MAX).unwrap();
    assert_eq!(recent_price(&last, -1), None);
    assert_eq!(recent_price(&last, 0), None);
    let first = feed_of(1, 1, i64::MIN).unwrap();
    assert_eq!(recent_price(&first, 0), None);
    assert_eq!(recent_price(&first, i64::MIN + 60), Some(first.price));
}

#[test]
fn feed_checks_in_order() {
    assert!(check(&good_feed()).is_ok());
    assert_eq!(check(&None), Err(TariffError::PythLoadFailed));
    assert_eq!(check(&feed_of(-1, 1, NOW - 61)), Err(TariffError::PythStale));
    assert_eq!(check(&feed_of(-1, 1, NOW + 61)), Err(TariffError::PythStale));
    assert_eq!(check(&feed_of(-1, 1, NOW + 1)), Err(TariffError::MathOverflow));
    assert_eq!(check(&feed_of(-1, 1, NOW - 51)), Err(TariffError::PythNonMonotonic));
    assert_eq!(check(&feed_of(0, 1, NOW - 50)), Err(TariffError::PythBadPrice));
    assert_eq!(check(&feed_of(-5, 0, NOW)), Err(TariffError::PythBadPrice));
    assert_eq!(check(&feed_of(10_000, 101, NOW)), Err(TariffError::PythConfidenceTooWide));
    assert!(check(&feed_of(10_000, 100, NOW - 50)).is_ok());
    assert_eq!(check(&feed_of(1, u64::MAX, NOW)), Err(TariffError::PythConfidenceTooWide));
    assert!(check(&feed_of(i64::MAX, 0, NOW)).is_ok());
}

#[test]
fn feed_account_is_checked_and_remembered() {
    let mut m = market();
    let good = account(price_account(15_000_000_000, 10_000_000, NOW - 5));
    let price = pyth_sanity_check_update_market(&mut m, &good, NOW).unwrap();
    assert_eq!((price.price, price.conf, price.expo), (15_000_000_000, 10_000_000, -8));
    assert_eq!((price.publish_time, m.last_pyth_publish_time), (NOW - 5, NOW - 5));
    let before = m;
    let zero = account(price_account(0, 0, NOW));
    assert_eq!(pyth_sanity_check_update_market(&mut m, &zero, NOW), Err(TariffError::PythBadPrice));
    let other = account(vec![0; 3312]);
    assert_eq!(pyth_sanity_check_update_market(&mut m, &other, NOW), Err(TariffError::PythLoadFailed));
    assert_eq!(m, before);
}

#[test]
fn withdrawal_reads_the_feed_account() {
    let mut ctx = WithdrawUsdc {
        owner: key(7),
        oracle_key: key(2),
        oracle: oracle(),
        market_key: key(8),
        market: market(),
        margin: margin(100),
        pyth_feed: account(price_account(15_000_000_000, 10_000_000, NOW - 5)),
        vault_authority: key(9),
        vault_usdc: tokens(3, 9, 0),
        user_usdc: tokens(3, 7, 0),
    };
    assert!(withdraw_usdc(&mut ctx, 40, NOW).is_ok());
    assert_eq!(ctx.margin.collateral_usdc, 60);
    assert_eq!(ctx.market.last_pyth_publish_time, NOW - 5);
    ctx.pyth_feed = account(price_account(15_000_000_000, 10_000_000, NOW - 6));
    assert_eq!(withdraw_usdc(&mut ctx, 40, NOW), Err(TariffError::PythNonMonotonic));
    ctx.pyth_feed = account(price_account(15_000_000_000, 10_000_000, NOW));
    assert_eq!(withdraw_usdc(&mut ctx, 40, NOW + 61), Err(TariffError::PythStale));
    ctx.pyth_feed = account(vec![1, 2, 3]);
    assert_eq!(withdraw_usdc(&mut ctx, 40, NOW), Err(TariffError::PythLoadFailed));
    assert_eq!(ctx.margin.collateral_usdc, 60);
}

#[test]
fn opening_reads_the_feed_account() {
    let mut ctx = OpenPosition {
        owner: key(7),
        oracle_key: key(2),
        oracle: oracle(),
        market_key: key(8),
        market: market(),
        margin: margin(5_000_000_000),
        pyth_feed: account(price_account(15_000_000_000, 200_000_000, NOW)),
        vault_authority: key(9),
        insurance_authority: key(10),
        vault_usdc: tokens(3, 9, 0),
        insurance_vault_usdc: tokens(3, 10, 0),
    };
    assert_eq!(open_position(&mut ctx, 0, 10_000_000_000, NOW), Err(TariffError::PythConfidenceTooWide));
    ctx.pyth_feed = account(price_account(15_000_000_000, 100_000_000, NOW));
    assert!(open_position(&mut ctx, 0, 10_000_000_000, NOW).is_ok());
    assert_eq!(ctx.margin.position_base, 10_000_000_000);
}
