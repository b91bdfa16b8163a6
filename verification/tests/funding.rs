use tariff_perp::accounts::Pubkey;
use tariff_perp::error::TariffError;
use tariff_perp::funding::ApplyFunding;
use tariff_perp::funding::apply_funding;
use tariff_perp::funding::apply_funding_with_feed;
use tariff_perp::margin::MarginAccount;
use tariff_perp::margin::settle_funding;
use tariff_perp::market::TariffPerpMarket;
use tariff_perp::math::Q64;
use tariff_perp::oracle::BasketWeight;
use tariff_perp::oracle::CountryAddon;
use tariff_perp::oracle::TariffOracle;
use tariff_perp::pyth::Price;
use tariff_perp::pyth::PriceFeed;
use tariff_perp::pyth::PythFeedAccount;

const NOW: i64 = 1_700_000_000;

fn key(n: u8) -> Pubkey {
    Pubkey { bytes: [n; 32] }
}

fn oracle() -> TariffOracle {
    TariffOracle {
        admin: key(1),
        baseline_tariff_bps: 10_500,
        valid_until_ts: NOW + 86_400,
        last_updated_ts: NOW,
        confidence_bps: 100,
        min_update_interval_secs: 0,
        max_jump_bps_per_update: 50_000,
        last_baseline_bps: 10_500,
        country_addons: [CountryAddon::default(); 16],
        basket_weights: [BasketWeight::default(); 16],
        addon_len: 0,
        weight_len: 0,
        _pad0: [0; 6],
    }
}

fn market() -> TariffPerpMarket {
    TariffPerpMarket {
        admin: key(1),
        oracle: key(2),
        usdc_mint: key(3),
        vault_authority_bump: 254,
        insurance_authority_bump: 253,
        _pad0: [0; 6],
        vault_usdc: key(4),
        insurance_vault_usdc: key(5),
        pyth_sol_usd_feed: key(6),
        last_pyth_publish_time: NOW - 50,
        base_reserve: 1_000_000_000_000,
        quote_reserve: 1_000_000_000_000_000_000,
        invariant_k: 1_000_000_000_000_000_000_000_000_000_000,
        funding_index: 0,
        last_funding_ts: NOW,
        funding_period_secs: 3600,
        initial_margin_bps: 1000,
        maintenance_margin_bps: 500,
        trade_fee_bps: 10,
        liquidation_fee_bps: 100,
        max_insurance_payout_per_liq_usdc: 1_000_000_000,
        fee_to_insurance_bps: 10_000,
        min_trade_base: 10_000_000,
        max_price_impact_bps: 500,
        spread_bps: 10,
        reduce_only: false,
        paused: false,
        _pad1: [0; 2],
        open_interest_base: 0,
        net_position_base: 0,
        max_open_interest_base: 1_000_000_000_000,
        max_skew_base: 1_000_000_000_000,
    }
}

fn good_feed() -> Option<PriceFeed> {
    let price = Price { price: 15_000_000_000, conf: 10_000_000, expo: -8, publish_time: NOW - 5 };
    Some(PriceFeed { id: [6; 32], price, ema_price: price })
}

fn margin(collateral_usdc: u64) -> MarginAccount {
    MarginAccount {
        owner: key(7),
        market: key(8),
        collateral_usdc,
        position_base: 0,
        entry_price_q64: 0,
        last_funding_index: 0,
        realized_pnl_usdc: 0,
        open_notional_q64: 0,
    }
}

fn feed_account() -> PythFeedAccount {
    PythFeedAccount { key: key(6), data: vec![] }
}

fn funding_ctx(last_funding_ts: i64) -> ApplyFunding {
    let mut m = market();
    m.quote_reserve = 1_100_000_000_000;
    m.invariant_k = 1_100_000_000_000_000_000_000_000;
    m.last_funding_ts = last_funding_ts;
    ApplyFunding { oracle_key: key(2), oracle: oracle(), market_key: key(8), market: m, pyth_feed: feed_account() }
}

fn refused(ctx: ApplyFunding) -> TariffError {
    let mut after = ctx.clone();
    let error = apply_funding_with_feed(&mut after, &good_feed(), NOW).unwrap_err();
    assert_eq!(after, ctx);
    error
}

#[test]
fn funding_rate_is_an_eighth_of_the_difference() {
    let mut ctx = funding_ctx(NOW - 3_600);
    ctx.oracle.baseline_tariff_bps = 10_800;
    let event = apply_funding_with_feed(&mut ctx, &good_feed(), NOW).unwrap().unwrap();
    assert_eq!(event.mark_q64, 20291418481080506777);
    assert_eq!(event.index_q64, 19922483599606315745);
    assert_eq!(event.rate_q64, 46116860184273879);
    assert_eq!(event.funding_index, 46116860184273879);
    assert_eq!((event.market, event.dt, event.ts), (key(8), 3_600, NOW));
    assert_eq!(ctx.market.funding_index, 46116860184273879);
    assert_eq!(ctx.market.last_funding_ts, NOW);
    assert_eq!(ctx.market.last_pyth_publish_time, NOW - 5);
}

#[test]
fn funding_rate_is_capped_either_way() {
    let mut ctx = funding_ctx(NOW - 3_600);
    let event = apply_funding_with_feed(&mut ctx, &good_feed(), NOW).unwrap().unwrap();
    assert_eq!(event.rate_q64, 92233720368547758);
    let mut ctx = funding_ctx(NOW - 3_600);
    ctx.oracle.baseline_tariff_bps = 20_000;
    let event = apply_funding_with_feed(&mut ctx, &good_feed(), NOW).unwrap().unwrap();
    assert_eq!(event.rate_q64, -92233720368547758);
    assert_eq!(ctx.market.funding_index, -92233720368547758);
}

#[test]
fn funding_applies_whole_periods_only() {
    let mut ctx = funding_ctx(NOW - 2 * 3_600 - 1_000);
    let event = apply_funding_with_feed(&mut ctx, &good_feed(), NOW).unwrap().unwrap();
    assert_eq!(event.dt, 7_200);
    assert_eq!(ctx.market.funding_index, 2 * 92233720368547758);
    assert_eq!(ctx.market.last_funding_ts, NOW - 1_000);
    let before = ctx.clone();
    assert_eq!(apply_funding_with_feed(&mut ctx, &good_feed(), NOW), Ok(None));
    assert_eq!(ctx, before);
}

#[test]
fn funding_before_a_period_only_remembers_the_feed() {
    let mut ctx = funding_ctx(NOW - 3_599);
    let mut expected = ctx.clone();
    expected.market.last_pyth_publish_time = NOW - 5;
    assert_eq!(apply_funding_with_feed(&mut ctx, &good_feed(), NOW), Ok(None));
    assert_eq!(ctx, expected);
}

#[test]
fn no_funding_time_is_lost_between_two_applications() {
    let mut twice = funding_ctx(NOW - 9_000);
    let mut feed = good_feed();
    if let Some(f) = &mut feed {
        f.price.publish_time = NOW - 4_005;
    }
    twice.market.last_pyth_publish_time = 0;
    apply_funding_with_feed(&mut twice, &feed, NOW - 4_000).unwrap();
    assert_eq!(twice.market.last_funding_ts, NOW - 5_400);
    apply_funding_with_feed(&mut twice, &good_feed(), NOW).unwrap();
    let mut once = funding_ctx(NOW - 9_000);
    apply_funding_with_feed(&mut once, &good_feed(), NOW).unwrap();
    assert_eq!(twice, once);
}

#[test]
fn funding_refusals() {
    let mut ctx = funding_ctx(NOW);
    ctx.oracle_key = key(99);
    assert_eq!(refused(ctx), TariffError::InvalidOracle);
    let mut ctx = funding_ctx(NOW);
    ctx.market.paused = true;
    assert_eq!(refused(ctx), TariffError::Paused);
    let mut ctx = funding_ctx(NOW);
    ctx.oracle.valid_until_ts = NOW - 1;
    assert_eq!(refused(ctx), TariffError::OracleStale);
    assert_eq!(refused(funding_ctx(NOW + 1)), TariffError::MathOverflow);
    assert_eq!(refused(funding_ctx(i64::MIN)), TariffError::MathOverflow);
    let mut ctx = funding_ctx(NOW);
    ctx.market.funding_period_secs = 0;
    assert_eq!(refused(ctx), TariffError::InvalidConfig);
    let mut ctx = funding_ctx(NOW - 3_600);
    ctx.market.quote_reserve = 0;
    assert_eq!(refused(ctx), TariffError::InvalidReserve);
    let mut ctx = funding_ctx(NOW - 3_600);
    ctx.market.funding_index = i128::MAX;
    assert_eq!(refused(ctx), TariffError::MathOverflow);
    let mut ctx = funding_ctx(NOW - 3_600);
    assert_eq!(apply_funding(&mut ctx, NOW), Err(TariffError::PythLoadFailed));
}

#[test]
fn funding_settles_once_and_symmetrically() {
    let mut m = market();
    m.funding_index = 3 * Q64;
    let mut long = margin(100);
    long.position_base = 2_500_000;
    let mut short = margin(100);
    short.position_base = -2_500_000;
    assert_eq!(settle_funding(&m, &mut long), Ok(()));
    assert_eq!(settle_funding(&m, &mut short), Ok(()));
    assert_eq!((long.collateral_usdc, short.collateral_usdc), (107, 93));
    assert_eq!((long.last_funding_index, short.last_funding_index), (3 * Q64, 3 * Q64));
    let settled = long;
    assert_eq!(settle_funding(&m, &mut long), Ok(()));
    assert_eq!(long, settled);
}

#[test]
fn funding_never_takes_more_than_the_collateral() {
    let mut m = market();
    m.funding_index = -1_000 * Q64;
    let mut long = margin(100);
    long.position_base = 2_500_000;
    assert_eq!(settle_funding(&m, &mut long), Ok(()));
    assert_eq!((long.collateral_usdc, long.last_funding_index), (0, -1_000 * Q64));
    let mut flat = margin(100);
    assert_eq!(settle_funding(&m, &mut flat), Ok(()));
    assert_eq!((flat.collateral_usdc, flat.last_funding_index), (100, -1_000 * Q64));
    let mut huge = margin(100);
    huge.position_base = i128::MAX;
    assert_eq!(settle_funding(&m, &mut huge), Err(TariffError::MathOverflow));
    assert_eq!(huge.last_funding_index, 0);
    let mut rich = margin(u64::MAX);
    rich.position_base = -2_500_000;
    assert_eq!(settle_funding(&m, &mut rich), Err(TariffError::MathOverflow));
}
