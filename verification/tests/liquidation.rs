use tariff_perp::accounts::Pubkey;
use tariff_perp::accounts::TokenAccount;
use tariff_perp::accounts::TokenSlot;
use tariff_perp::accounts::TokenTransfer;
use tariff_perp::accounts::TransferAuthority;
use tariff_perp::error::TariffError;
use tariff_perp::liquidation::Liquidate;
use tariff_perp::liquidation::liquidate;
use tariff_perp::liquidation::liquidate_with_feed;
use tariff_perp::margin::MarginAccount;
use tariff_perp::market::TariffPerpMarket;
use tariff_perp::math::Q64;
use tariff_perp::oracle::BasketWeight;
use tariff_perp::oracle::CountryAddon;
use tariff_perp::oracle::TariffOracle;
use tariff_perp::pyth::Price;
use tariff_perp::pyth::PriceFeed;
use tariff_perp::pyth::PythFeedAccount;

const NOW: i64 = 1_700_000_000;

fn key(n: u8) -> Pubkey {
    Pubkey { bytes: [n; 32] }
}

fn oracle() -> TariffOracle {
    TariffOracle {
        admin: key(1),
        baseline_tariff_bps: 10_500,
        valid_until_ts: NOW + 86_400,
        last_updated_ts: NOW,
        confidence_bps: 100,
        min_update_interval_secs: 0,
        max_jump_bps_per_update: 50_000,
        last_baseline_bps: 10_500,
        country_addons: [CountryAddon::default(); 16],
        basket_weights: [BasketWeight::default(); 16],
        addon_len: 0,
        weight_len: 0,
        _pad0: [0; 6],
    }
}

fn market() -> TariffPerpMarket {
    TariffPerpMarket {
        admin: key(1),
        oracle: key(2),
        usdc_mint: key(3),
        vault_authority_bump: 254,
        insurance_authority_bump: 253,
        _pad0: [0; 6],
        vault_usdc: key(4),
        insurance_vault_usdc: key(5),
        pyth_sol_usd_feed: key(6),
        last_pyth_publish_time: NOW - 50,
        base_reserve: 1_000_000_000_000,
        quote_reserve: 1_000_000_000_000_000_000,
        invariant_k: 1_000_000_000_000_000_000_000_000_000_000,
        funding_index: 0,
        last_funding_ts: NOW,
        funding_period_secs: 3600,
        initial_margin_bps: 1000,
        maintenance_margin_bps: 500,
        trade_fee_bps: 10,
        liquidation_fee_bps: 100,
        max_insurance_payout_per_liq_usdc: 1_000_000_000,
        fee_to_insurance_bps: 10_000,
        min_trade_base: 10_000_000,
        max_price_impact_bps: 500,
        spread_bps: 10,
        reduce_only: false,
        paused: false,
        _pad1: [0; 2],
        open_interest_base: 0,
        net_position_base: 0,
        max_open_interest_base: 1_000_000_000_000,
        max_skew_base: 1_000_000_000_000,
    }
}

fn good_feed() -> Option<PriceFeed> {
    let price = Price { price: 15_000_000_000, conf: 10_000_000, expo: -8, publish_time: NOW - 5 };
    Some(PriceFeed { id: [6; 32], price, ema_price: price })
}

fn margin(collateral_usdc: u64) -> MarginAccount {
    MarginAccount {
        owner: key(7),
        market: key(8),
        collateral_usdc,
        position_base: 0,
        entry_price_q64: 0,
        last_funding_index: 0,
        realized_pnl_usdc: 0,
        open_notional_q64: 0,
    }
}

fn tokens(mint: u8, owner: u8, amount: u64) -> TokenAccount {
    TokenAccount { mint: key(mint), owner: key(owner), amount }
}

fn feed_account() -> PythFeedAccount {
    PythFeedAccount { key: key(6), data: vec![] }
}

fn liquidate_ctx(collateral: u64, entry: i128, position: i128, insurance: u64) -> Liquidate {
    let mut m = market();
    m.open_interest_base = 100_000_000_000;
    let mut g = margin(collateral);
    g.position_base = position;
    g.entry_price_q64 = entry * Q64;
    Liquidate {
        liquidator: key(11),
        oracle_key: key(2),
        oracle: oracle(),
        market_key: key(8),
        market: m,
        user_margin: g,
        pyth_feed: feed_account(),
        vault_authority: key(9),
        insurance_authority: key(10),
        vault_usdc: tokens(3, 9, 0),
        insurance_vault_usdc: tokens(3, 10, insurance),
        liquidator_usdc: tokens(3, 11, 0),
    }
}

fn refused(ctx: Liquidate) -> TariffError {
    let mut after = ctx.clone();
    let error = liquidate_with_feed(&mut after, &good_feed(), NOW).unwrap_err();
    assert_eq!(after, ctx);
    error
}

#[test]
fn liquidation_closes_a_fifth_and_splits_the_fee() {
    let mut ctx = liquidate_ctx(2_100_000_000, 1_200_000, 10_000_000_000, 1_000_000_000);
    let out = liquidate_with_feed(&mut ctx, &good_feed(), NOW).unwrap();
    assert_eq!((out.event.market, out.event.user, out.event.liquidator), (key(8), key(7), key(11)));
    assert_eq!(out.event.closed_base, 2_000_000_000);
    assert_eq!(out.event.closed_notional_usdc, 1996007984);
    assert_eq!(out.event.fee_usdc, 19960079);
    assert_eq!(out.event.equity_before, 100_000_000);
    assert_eq!(out.event.equity_after, 44143651);
    assert_eq!(out.event.ts, NOW);
    assert_eq!(out.bad_debt, None);
    assert_eq!(
        out.liquidator_transfer,
        Some(TokenTransfer {
            from: TokenSlot::Vault,
            to: TokenSlot::Liquidator,
            authority: TransferAuthority::Vault,
            amount: 9980039,
        })
    );
    assert_eq!(
        out.insurance_transfer,
        Some(TokenTransfer {
            from: TokenSlot::Vault,
            to: TokenSlot::InsuranceVault,
            authority: TransferAuthority::Vault,
            amount: 9980040,
        })
    );
    assert_eq!(out.cover_transfer, None);
    assert_eq!(ctx.user_margin.collateral_usdc, 1676047906);
    assert_eq!(ctx.user_margin.position_base, 8_000_000_000);
    assert_eq!(ctx.user_margin.entry_price_q64, 1_200_000 * Q64);
    assert_eq!(ctx.user_margin.realized_pnl_usdc, -403992015);
    assert_eq!(ctx.market.base_reserve, 1002000000000);
    assert_eq!(ctx.market.quote_reserve, 998003992015968063);
    assert_eq!((ctx.market.open_interest_base, ctx.market.net_position_base), (98_000_000_000, -2_000_000_000));
}

#[test]
fn a_short_is_liquidated_by_buying() {
    let mut ctx = liquidate_ctx(2_100_000_000, 800_000, -10_000_000_000, 1_000_000_000);
    let out = liquidate_with_feed(&mut ctx, &good_feed(), NOW).unwrap();
    assert_eq!(out.event.closed_notional_usdc, 2004008016);
    assert_eq!(out.event.fee_usdc, 20040080);
    assert_eq!(out.event.equity_after, 43855648);
    assert_eq!(ctx.user_margin.position_base, -8_000_000_000);
    assert_eq!(ctx.user_margin.collateral_usdc, 1675951904);
    assert_eq!(out.liquidator_transfer.unwrap().amount, 10020040);
    assert_eq!(out.insurance_transfer.unwrap().amount, 10020040);
    assert_eq!(ctx.market.net_position_base, 2_000_000_000);
}

#[test]
fn debt_is_covered_up_to_the_cap() {
    let mut ctx = liquidate_ctx(100_000_000, 1_200_000, 10_000_000_000, 5_000_000_000);
    let out = liquidate_with_feed(&mut ctx, &good_feed(), NOW).unwrap();
    let debt = out.bad_debt.unwrap();
    assert_eq!((debt.market, debt.user, debt.ts), (key(8), key(7), NOW));
    assert_eq!((debt.debt_usdc, debt.covered_usdc), (1631904255, 1_000_000_000));
    assert_eq!(
        out.cover_transfer,
        Some(TokenTransfer {
            from: TokenSlot::InsuranceVault,
            to: TokenSlot::Vault,
            authority: TransferAuthority::Insurance,
            amount: 1_000_000_000,
        })
    );
    assert_eq!(out.event.fee_usdc, 0);
    assert_eq!(out.event.equity_before, -1_900_000_000);
    assert_eq!(out.event.equity_after, -1631904255);
    assert_eq!((out.liquidator_transfer, out.insurance_transfer), (None, None));
    assert_eq!(ctx.user_margin.collateral_usdc, 0);
}

#[test]
fn debt_is_covered_up_to_the_balance() {
    let mut ctx = liquidate_ctx(100_000_000, 1_200_000, 10_000_000_000, 7);
    let out = liquidate_with_feed(&mut ctx, &good_feed(), NOW).unwrap();
    assert_eq!(out.cover_transfer.unwrap().amount, 7);
    assert_eq!(out.bad_debt.unwrap().covered_usdc, 7);
    let mut ctx = liquidate_ctx(100_000_000, 1_200_000, 10_000_000_000, 0);
    let out = liquidate_with_feed(&mut ctx, &good_feed(), NOW).unwrap();
    assert_eq!(out.cover_transfer, None);
    assert_eq!(out.bad_debt.unwrap().covered_usdc, 0);
}

#[test]
fn debt_that_is_covered_is_not_reported() {
    let mut ctx = liquidate_ctx(0, 2_000_000_000_000, 3, 1_000_000_000);
    let out = liquidate_with_feed(&mut ctx, &good_feed(), NOW).unwrap();
    assert_eq!(out.event.closed_base, 1);
    assert_eq!(out.event.closed_notional_usdc, 1);
    assert_eq!(out.cover_transfer.unwrap().amount, 3999998);
    assert_eq!(out.bad_debt, None);
    assert_eq!(ctx.user_margin.position_base, 2);
    assert_eq!(ctx.user_margin.realized_pnl_usdc, -1999999);
}

#[test]
fn an_account_below_maintenance_can_be_liquidated_again() {
    let mut ctx = liquidate_ctx(2_100_000_000, 1_200_000, 10_000_000_000, 1_000_000_000);
    let mut last = ctx.user_margin.position_base;
    for _ in 0..3 {
        liquidate_with_feed(&mut ctx, &good_feed(), NOW).unwrap();
        assert!(0 < ctx.user_margin.position_base && ctx.user_margin.position_base < last);
        last = ctx.user_margin.position_base;
    }
}

#[test]
fn safe_accounts_are_not_liquidatable() {
    // Equity equals the requirement: 500 USDC on 10,000.
    let ctx = liquidate_ctx(500_000_000, 1_000_000, 10_000_000_000, 0);
    assert_eq!(refused(ctx), TariffError::NotLiquidatable);
    let mut below = liquidate_ctx(499_999_999, 1_000_000, 10_000_000_000, 0);
    assert!(liquidate_with_feed(&mut below, &good_feed(), NOW).is_ok());
    let flat = liquidate_ctx(0, 0, 0, 0);
    assert_eq!(refused(flat), TariffError::NotLiquidatable);
}

#[test]
fn liquidation_settles_funding_first() {
    let mut ctx = liquidate_ctx(500_000_000, 1_000_000, 10_000_000_000, 0);
    ctx.market.funding_index = -Q64;
    let out = liquidate_with_feed(&mut ctx, &good_feed(), NOW).unwrap();
    assert_eq!(out.event.equity_before, 499_990_000);
    assert_eq!(ctx.user_margin.last_funding_index, -Q64);
}

#[test]
fn liquidation_refusals() {
    let base = || liquidate_ctx(2_100_000_000, 1_200_000, 10_000_000_000, 0);
    let mut ctx = base();
    ctx.oracle_key = key(99);
    assert_eq!(refused(ctx), TariffError::InvalidOracle);
    let mut ctx = base();
    ctx.user_margin.market = key(99);
    assert_eq!(refused(ctx), TariffError::InvalidMarket);
    let mut ctx = base();
    ctx.market.paused = true;
    assert_eq!(refused(ctx), TariffError::Paused);
    let mut ctx = base();
    ctx.oracle.valid_until_ts = NOW - 1;
    assert_eq!(refused(ctx), TariffError::OracleStale);
    let mut ctx = base();
    ctx.liquidator_usdc.mint = key(99);
    assert_eq!(refused(ctx), TariffError::InvalidMint);
    let mut ctx = base();
    ctx.insurance_vault_usdc.owner = key(99);
    assert_eq!(refused(ctx), TariffError::InvalidTokenOwner);
    let mut ctx = base();
    ctx.market.max_skew_base = 1_999_999_999;
    assert_eq!(refused(ctx), TariffError::RiskLimit);
    let mut ctx = base();
    assert_eq!(liquidate(&mut ctx, NOW), Err(TariffError::PythLoadFailed));
}
