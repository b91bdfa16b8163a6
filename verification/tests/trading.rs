use tariff_perp::accounts::Pubkey;
use tariff_perp::accounts::TokenAccount;
use tariff_perp::accounts::TokenSlot;
use tariff_perp::accounts::TokenTransfer;
use tariff_perp::accounts::TransferAuthority;
use tariff_perp::error::TariffError;
use tariff_perp::liquidation::require_liquidatable;
use tariff_perp::margin::MarginAccount;
use tariff_perp::margin::apply_realized_pnl;
use tariff_perp::margin::compute_equity_and_notional_usdc;
use tariff_perp::margin::pnl_on_close_usdc_micro;
use tariff_perp::margin::update_position_and_entry;
use tariff_perp::market::TariffPerpMarket;
use tariff_perp::math::Q64;
use tariff_perp::oracle::BasketWeight;
use tariff_perp::oracle::CountryAddon;
use tariff_perp::oracle::TariffOracle;
use tariff_perp::pyth::Price;
use tariff_perp::pyth::PriceFeed;
use tariff_perp::pyth::PythFeedAccount;
use tariff_perp::trading::ClosePosition;
use tariff_perp::trading::OpenPosition;
use tariff_perp::trading::close_position;
use tariff_perp::trading::close_position_with_feed;
use tariff_perp::trading::open_position_with_feed;

const NOW: i64 = 1_700_000_000;

fn key(n: u8) -> Pubkey {
    Pubkey { bytes: [n; 32] }
}

fn oracle() -> TariffOracle {
    TariffOracle {
        admin: key(1),
        baseline_tariff_bps: 10_500,
        valid_until_ts: NOW + 86_400,
        last_updated_ts: NOW,
        confidence_bps: 100,
        min_update_interval_secs: 0,
        max_jump_bps_per_update: 50_000,
        last_baseline_bps: 10_500,
        country_addons: [CountryAddon::default(); 16],
        basket_weights: [BasketWeight::default(); 16],
        addon_len: 0,
        weight_len: 0,
        _pad0: [0; 6],
    }
}

fn market() -> TariffPerpMarket {
    TariffPerpMarket {
        admin: key(1),
        oracle: key(2),
        usdc_mint: key(3),
        vault_authority_bump: 254,
        insurance_authority_bump: 253,
        _pad0: [0; 6],
        vault_usdc: key(4),
        insurance_vault_usdc: key(5),
        pyth_sol_usd_feed: key(6),
        last_pyth_publish_time: NOW - 50,
        base_reserve: 1_000_000_000_000,
        quote_reserve: 1_000_000_000_000_000_000,
        invariant_k: 1_000_000_000_000_000_000_000_000_000_000,
        funding_index: 0,
        last_funding_ts: NOW,
        funding_period_secs: 3600,
        initial_margin_bps: 1000,
        maintenance_margin_bps: 500,
        trade_fee_bps: 10,
        liquidation_fee_bps: 100,
        max_insurance_payout_per_liq_usdc: 1_000_000_000,
        fee_to_insurance_bps: 10_000,
        min_trade_base: 10_000_000,
        max_price_impact_bps: 500,
        spread_bps: 10,
        reduce_only: false,
        paused: false,
        _pad1: [0; 2],
        open_interest_base: 0,
        net_position_base: 0,
        max_open_interest_base: 1_000_000_000_000,
        max_skew_base: 1_000_000_000_000,
    }
}

fn good_feed() -> Option<PriceFeed> {
    let price = Price { price: 15_000_000_000, conf: 10_000_000, expo: -8, publish_time: NOW - 5 };
    Some(PriceFeed { id: [6; 32], price, ema_price: price })
}

fn margin(collateral_usdc: u64) -> MarginAccount {
    MarginAccount {
        owner: key(7),
        market: key(8),
        collateral_usdc,
        position_base: 0,
        entry_price_q64: 0,
        last_funding_index: 0,
        realized_pnl_usdc: 0,
        open_notional_q64: 0,
    }
}

fn tokens(mint: u8, owner: u8, amount: u64) -> TokenAccount {
    TokenAccount { mint: key(mint), owner: key(owner), amount }
}

fn feed_account() -> PythFeedAccount {
    PythFeedAccount { key: key(6), data: vec![] }
}

fn open_ctx() -> OpenPosition {
    OpenPosition {
        owner: key(7),
        oracle_key: key(2),
        oracle: oracle(),
        market_key: key(8),
        market: market(),
        margin: margin(5_000_000_000),
        pyth_feed: feed_account(),
        vault_authority: key(9),
        insurance_authority: key(10),
        vault_usdc: tokens(3, 9, 5_000_000_000),
        insurance_vault_usdc: tokens(3, 10, 0),
    }
}

fn close_ctx(opened: &OpenPosition) -> ClosePosition {
    ClosePosition {
        owner: opened.owner,
        oracle_key: opened.oracle_key,
        oracle: opened.oracle,
        market_key: opened.market_key,
        market: opened.market,
        margin: opened.margin,
        pyth_feed: feed_account(),
        vault_authority: opened.vault_authority,
        insurance_authority: opened.insurance_authority,
        vault_usdc: opened.vault_usdc,
        insurance_vault_usdc: opened.insurance_vault_usdc,
    }
}

fn refused(ctx: OpenPosition, side: u8, amount: i128) -> TariffError {
    let mut after = ctx.clone();
    let error = open_position_with_feed(&mut after, &good_feed(), side, amount, NOW).unwrap_err();
    assert_eq!(after, ctx);
    error
}

fn opened(side: u8, amount: i128) -> OpenPosition {
    let mut ctx = open_ctx();
    assert!(open_position_with_feed(&mut ctx, &good_feed(), side, amount, NOW).is_ok());
    ctx
}

#[test]
fn opening_a_long_fills_at_the_spread_price() {
    let mut ctx = open_ctx();
    let out = open_position_with_feed(&mut ctx, &good_feed(), 0, 10_000_000_000, NOW).unwrap();
    assert_eq!((out.event.market, out.event.user), (key(8), key(7)));
    assert_eq!((out.event.side, out.event.base_delta, out.event.ts), (0, 10_000_000_000, NOW));
    assert_eq!(out.event.exec_price_q64, 18651707896750768837526069);
    assert_eq!(out.event.fee_usdc, 10111111);
    assert_eq!(out.event.mark_before_q64, 18446744073709551616000000);
    assert_eq!(out.event.mark_after_q64, 18821287698918020218156853);
    assert_eq!(
        out.insurance_transfer,
        Some(TokenTransfer {
            from: TokenSlot::Vault,
            to: TokenSlot::InsuranceVault,
            authority: TransferAuthority::Vault,
            amount: 10111111,
        })
    );
    assert_eq!(ctx.margin.collateral_usdc, 4989888889);
    assert_eq!(ctx.margin.position_base, 10_000_000_000);
    assert_eq!(ctx.margin.entry_price_q64, 18651707896750768837526069);
    assert_eq!(ctx.market.base_reserve, 990000000000);
    assert_eq!(ctx.market.quote_reserve, 1010101010101010101);
    assert_eq!(ctx.market.open_interest_base, 10_000_000_000);
    assert_eq!(ctx.market.net_position_base, 10_000_000_000);
    assert_eq!(ctx.market.last_pyth_publish_time, NOW - 5);
    assert_eq!(compute_equity_and_notional_usdc(&ctx.market, &ctx.margin), Ok((5081818283, 10203040506)));
}

#[test]
fn opening_a_short_fills_below_the_swap_price() {
    let mut ctx = open_ctx();
    let out = open_position_with_feed(&mut ctx, &good_feed(), 1, 10_000_000_000, NOW).unwrap();
    assert_eq!((out.event.side, out.event.base_delta), (1, -10_000_000_000));
    assert_eq!(out.event.exec_price_q64, 18245838940233507012685442);
    assert_eq!(out.event.fee_usdc, 9891089);
    assert_eq!(ctx.margin.collateral_usdc, 4990108911);
    assert_eq!(ctx.margin.position_base, -10_000_000_000);
    assert_eq!(ctx.market.open_interest_base, 10_000_000_000);
    assert_eq!(ctx.market.net_position_base, -10_000_000_000);
}

#[test]
fn a_position_is_added_to_reduced_and_flipped() {
    let mut ctx = opened(0, 10_000_000_000);
    open_position_with_feed(&mut ctx, &good_feed(), 0, 5_000_000_000, NOW).unwrap();
    assert_eq!(ctx.margin.position_base, 15_000_000_000);
    assert_eq!(ctx.margin.entry_price_q64, 18746386617038843462560720);
    assert_eq!(ctx.margin.collateral_usdc, 4984756346);
    assert_eq!(ctx.margin.realized_pnl_usdc, 0);
    open_position_with_feed(&mut ctx, &good_feed(), 1, 3_000_000_000, NOW).unwrap();
    assert_eq!(ctx.margin.position_base, 12_000_000_000);
    assert_eq!(ctx.margin.entry_price_q64, 18746386617038843462560720);
    assert_eq!(ctx.margin.realized_pnl_usdc, 30863766);
    assert_eq!(ctx.margin.collateral_usdc, 5012540518);
    open_position_with_feed(&mut ctx, &good_feed(), 1, 20_000_000_000, NOW).unwrap();
    assert_eq!(ctx.margin.position_base, -8_000_000_000);
    assert_eq!(ctx.margin.entry_price_q64, 18504090082614230392463608);
    assert_eq!(ctx.margin.realized_pnl_usdc, -126755291);
    assert_eq!(ctx.margin.collateral_usdc, 4834859287);
    assert_eq!((ctx.market.open_interest_base, ctx.market.net_position_base), (8_000_000_000, -8_000_000_000));
    let mut close = close_ctx(&ctx);
    let out = close_position_with_feed(&mut close, &good_feed(), NOW).unwrap();
    assert_eq!((out.event.side, out.event.base_delta), (0, 8_000_000_000));
    assert_eq!(out.event.fee_usdc, 7944444);
    assert_eq!(close.margin.collateral_usdc, 4907340265);
    assert_eq!(close.margin.realized_pnl_usdc, -46329869);
    assert_eq!(close.market.base_reserve, 1_000_000_000_000);
    assert_eq!(close.market.quote_reserve, 1_000_000_000_000_000_000);
    assert_eq!((close.market.open_interest_base, close.market.net_position_base), (0, 0));
}

#[test]
fn a_round_trip_gains_nothing() {
    let ctx = opened(0, 10_000_000_000);
    let mut close = close_ctx(&ctx);
    let out = close_position_with_feed(&mut close, &good_feed(), NOW).unwrap();
    assert_eq!((out.event.side, out.event.base_delta), (1, -10_000_000_000));
    assert_eq!(out.event.exec_price_q64, 18614441747106911157531012);
    assert_eq!(out.event.fee_usdc, 10090909);
    assert_eq!(close.margin.realized_pnl_usdc, -20202020);
    assert_eq!(close.margin.collateral_usdc, 4959595960);
    assert_eq!(close.margin.position_base, 0);
    assert_eq!(close.margin.entry_price_q64, 0);
    assert_eq!(close.market.base_reserve, 1_000_000_000_000);
    assert_eq!(close.market.quote_reserve, 1_000_000_000_000_000_000);
    let short = opened(1, 10_000_000_000);
    let mut close = close_ctx(&short);
    close_position_with_feed(&mut close, &good_feed(), NOW).unwrap();
    assert!(close.margin.realized_pnl_usdc < 0);
}

#[test]
fn open_refuses_bad_arguments_and_accounts() {
    assert_eq!(refused(open_ctx(), 2, 10_000_000_000), TariffError::InvalidSide);
    assert_eq!(refused(open_ctx(), 0, 0), TariffError::InvalidAmount);
    assert_eq!(refused(open_ctx(), 0, -1), TariffError::InvalidAmount);
    assert_eq!(refused(open_ctx(), 0, 9_999_999), TariffError::TradeTooSmall);
    let mut ctx = open_ctx();
    ctx.oracle_key = key(99);
    assert_eq!(refused(ctx, 2, 0), TariffError::InvalidOracle);
    let mut ctx = open_ctx();
    ctx.owner = key(99);
    assert_eq!(refused(ctx, 2, 0), TariffError::Unauthorized);
    let mut ctx = open_ctx();
    ctx.market_key = key(99);
    assert_eq!(refused(ctx, 2, 0), TariffError::InvalidMarket);
    let mut ctx = open_ctx();
    ctx.vault_usdc.mint = key(99);
    assert_eq!(refused(ctx, 0, 10_000_000_000), TariffError::InvalidMint);
    let mut ctx = open_ctx();
    ctx.insurance_vault_usdc.mint = key(99);
    ctx.vault_usdc.owner = key(99);
    assert_eq!(refused(ctx, 0, 10_000_000_000), TariffError::InvalidMint);
    let mut ctx = open_ctx();
    ctx.vault_usdc.owner = key(99);
    assert_eq!(refused(ctx, 0, 10_000_000_000), TariffError::InvalidTokenOwner);
    let mut ctx = open_ctx();
    ctx.insurance_vault_usdc.owner = key(99);
    assert_eq!(refused(ctx, 0, 10_000_000_000), TariffError::InvalidTokenOwner);
}

#[test]
fn open_refuses_a_stale_oracle_or_feed() {
    let mut ctx = open_ctx();
    ctx.oracle.valid_until_ts = NOW - 1;
    assert_eq!(refused(ctx, 0, 10_000_000_000), TariffError::OracleStale);
    let mut ctx = open_ctx();
    ctx.pyth_feed.key = key(99);
    assert_eq!(refused(ctx, 0, 10_000_000_000), TariffError::InvalidPythFeed);
    let mut ctx = open_ctx();
    assert_eq!(
        open_position_with_feed(&mut ctx, &None, 0, 10_000_000_000, NOW),
        Err(TariffError::PythLoadFailed)
    );
    assert_eq!(ctx, open_ctx());
}

#[test]
fn open_refuses_what_the_market_does_not_admit() {
    assert_eq!(refused(open_ctx(), 0, 25_000_000_000), TariffError::PriceImpactTooHigh);
    let mut ctx = open_ctx();
    ctx.market.max_open_interest_base = 9_999_999_999;
    assert_eq!(refused(ctx, 0, 10_000_000_000), TariffError::RiskLimit);
    let mut ctx = open_ctx();
    ctx.market.max_skew_base = 9_999_999_999;
    assert_eq!(refused(ctx, 1, 10_000_000_000), TariffError::RiskLimit);
    let mut ctx = open_ctx();
    ctx.market.max_open_interest_base = 2_000_000_000_000;
    ctx.market.max_skew_base = 2_000_000_000_000;
    assert_eq!(refused(ctx, 0, 1_000_000_000_000), TariffError::InsufficientLiquidity);
    let mut ctx = open_ctx();
    ctx.market.quote_reserve = 0;
    assert_eq!(refused(ctx, 0, 10_000_000_000), TariffError::InvalidReserve);
    let mut ctx = open_ctx();
    ctx.market.spread_bps = 10_001;
    assert_eq!(refused(ctx, 0, 10_000_000_000), TariffError::InvalidBps);
    let mut ctx = open_ctx();
    ctx.margin.position_base = i128::MAX;
    assert_eq!(refused(ctx, 0, 10_000_000_000), TariffError::MathOverflow);
}

#[test]
fn open_needs_fee_and_margin() {
    let mut ctx = open_ctx();
    ctx.margin.collateral_usdc = 10111110;
    assert_eq!(refused(ctx, 0, 10_000_000_000), TariffError::InsufficientCollateral);
    let mut ctx = open_ctx();
    // Equity after the trade is the collateral plus 81,818,283; the requirement is 1,020,304,050.
    ctx.margin.collateral_usdc = 938485766;
    assert_eq!(refused(ctx, 0, 10_000_000_000), TariffError::MarginTooLow);
    let mut ctx = open_ctx();
    ctx.margin.collateral_usdc = 938485767;
    assert!(open_position_with_feed(&mut ctx, &good_feed(), 0, 10_000_000_000, NOW).is_ok());
    assert_eq!(compute_equity_and_notional_usdc(&ctx.market, &ctx.margin), Ok((1020304050, 10203040506)));
}

#[test]
fn a_trade_leaves_the_account_safe() {
    let mut ctx = open_ctx();
    ctx.margin.collateral_usdc = 938485767;
    open_position_with_feed(&mut ctx, &good_feed(), 0, 10_000_000_000, NOW).unwrap();
    assert_eq!(require_liquidatable(&ctx.market, &ctx.margin), Err(TariffError::NotLiquidatable));
    ctx.margin.collateral_usdc = 0;
    assert_eq!(require_liquidatable(&ctx.market, &ctx.margin), Ok(91929394));
}

#[test]
fn flat_equity_is_the_collateral() {
    assert_eq!(compute_equity_and_notional_usdc(&market(), &margin(123)), Ok((123, 0)));
}

#[test]
fn reduce_only_admits_reductions_only() {
    let mut ctx = opened(0, 10_000_000_000);
    ctx.market.reduce_only = true;
    assert_eq!(refused(ctx.clone(), 0, 1_000_000_000), TariffError::ReduceOnly);
    assert_eq!(refused(ctx.clone(), 1, 11_000_000_000), TariffError::ReduceOnly);
    let mut part = ctx.clone();
    assert!(open_position_with_feed(&mut part, &good_feed(), 1, 1_000_000_000, NOW).is_ok());
    assert_eq!(part.margin.position_base, 9_000_000_000);
    let mut whole = ctx.clone();
    assert!(open_position_with_feed(&mut whole, &good_feed(), 1, 10_000_000_000, NOW).is_ok());
    assert_eq!(whole.margin.position_base, 0);
    let mut flat = open_ctx();
    flat.market.reduce_only = true;
    assert_eq!(refused(flat, 0, 10_000_000_000), TariffError::ReduceOnly);
}

#[test]
fn pause_blocks_opening_and_not_closing() {
    let mut ctx = opened(0, 10_000_000_000);
    ctx.market.paused = true;
    ctx.market.reduce_only = true;
    assert_eq!(refused(ctx.clone(), 1, 1_000_000_000), TariffError::Paused);
    let mut close = close_ctx(&ctx);
    assert!(close_position_with_feed(&mut close, &good_feed(), NOW).is_ok());
    assert_eq!(close.margin.position_base, 0);
}

#[test]
fn close_needs_a_position_and_the_gate() {
    let mut close = close_ctx(&open_ctx());
    let before = close.clone();
    assert_eq!(close_position_with_feed(&mut close, &good_feed(), NOW), Err(TariffError::NoPosition));
    assert_eq!(close_position_with_feed(&mut close, &None, NOW), Err(TariffError::PythLoadFailed));
    assert_eq!(close_position(&mut close, NOW), Err(TariffError::PythLoadFailed));
    assert_eq!(close, before);
    close.owner = key(99);
    assert_eq!(close_position_with_feed(&mut close, &good_feed(), NOW), Err(TariffError::Unauthorized));
}

#[test]
fn trading_settles_funding_first() {
    let mut ctx = opened(0, 10_000_000_000);
    ctx.market.funding_index = Q64 / 100;
    let mut close = close_ctx(&ctx);
    close_position_with_feed(&mut close, &good_feed(), NOW).unwrap();
    // 10,000 base units at 0.01 are credited: 99 micro-USDC, rounded down.
    assert_eq!(close.margin.collateral_usdc, 4959595960 + 99);
    assert_eq!(close.margin.last_funding_index, Q64 / 100);
}

#[test]
fn part_of_the_fee_can_stay_in_the_vault() {
    let mut ctx = open_ctx();
    ctx.market.fee_to_insurance_bps = 2_500;
    let out = open_position_with_feed(&mut ctx, &good_feed(), 0, 10_000_000_000, NOW).unwrap();
    assert_eq!(out.event.fee_usdc, 10111111);
    assert_eq!(out.insurance_transfer.unwrap().amount, 2527777);
    let mut ctx = open_ctx();
    ctx.market.fee_to_insurance_bps = 0;
    let out = open_position_with_feed(&mut ctx, &good_feed(), 0, 10_000_000_000, NOW).unwrap();
    assert_eq!(out.insurance_transfer, None);
    assert_eq!(ctx.margin.collateral_usdc, 4989888889);
}

#[test]
fn profit_is_symmetric() {
    assert_eq!(pnl_on_close_usdc_micro(3_000_000, 2 * Q64, 5 * Q64), Ok(9));
    assert_eq!(pnl_on_close_usdc_micro(-3_000_000, 2 * Q64, 5 * Q64), Ok(-9));
    assert_eq!(pnl_on_close_usdc_micro(3_000_000, 5 * Q64, 5 * Q64), Ok(0));
    assert_eq!(pnl_on_close_usdc_micro(1, i128::MIN, 1), Err(TariffError::MathOverflow));
    assert_eq!(pnl_on_close_usdc_micro(i128::MAX, 0, 2), Err(TariffError::MathOverflow));
}

#[test]
fn losses_stop_at_the_collateral() {
    let mut m = margin(100);
    assert_eq!(apply_realized_pnl(&mut m, -30), Ok(()));
    assert_eq!((m.collateral_usdc, m.realized_pnl_usdc), (70, -30));
    assert_eq!(apply_realized_pnl(&mut m, -80), Ok(()));
    assert_eq!((m.collateral_usdc, m.realized_pnl_usdc), (0, -110));
    assert_eq!(apply_realized_pnl(&mut m, 50), Ok(()));
    assert_eq!((m.collateral_usdc, m.realized_pnl_usdc), (50, -60));
    let before = m;
    assert_eq!(apply_realized_pnl(&mut m, i64::MAX as i128 + 1), Err(TariffError::MathOverflow));
    m.collateral_usdc = u64::MAX;
    assert_eq!(apply_realized_pnl(&mut m, 1), Err(TariffError::MathOverflow));
    m.collateral_usdc = before.collateral_usdc;
    assert_eq!(m, before);
}

#[test]
fn entry_price_is_the_weighted_average() {
    let mut m = margin(100);
    assert_eq!(update_position_and_entry(&mut m, 100, -30), Ok(()));
    assert_eq!(update_position_and_entry(&mut m, 200, -10), Ok(()));
    assert_eq!((m.position_base, m.entry_price_q64), (-40, 125));
    assert_eq!(update_position_and_entry(&mut m, 300, 0), Ok(()));
    assert_eq!((m.position_base, m.entry_price_q64), (-40, 125));
    assert_eq!(update_position_and_entry(&mut m, 300, 40), Ok(()));
    assert_eq!((m.position_base, m.entry_price_q64), (0, 0));
    let mut edge = margin(100);
    edge.position_base = 1;
    assert_eq!(update_position_and_entry(&mut edge, 1, i128::MAX), Err(TariffError::MathOverflow));
    assert_eq!(update_position_and_entry(&mut edge, 1, i128::MIN), Err(TariffError::MathOverflow));
    assert_eq!(edge.position_base, 1);
}
