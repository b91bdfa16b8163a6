use tariff_perp::accounts::Pubkey;
use tariff_perp::accounts::TokenAccount;
use tariff_perp::accounts::TokenSlot;
use tariff_perp::accounts::TransferAuthority;
use tariff_perp::collateral::DepositUsdc;
use tariff_perp::collateral::InitializeMargin;
use tariff_perp::collateral::WithdrawUsdc;
use tariff_perp::collateral::deposit_usdc;
use tariff_perp::collateral::initialize_margin;
use tariff_perp::collateral::withdraw_usdc_with_feed;
use tariff_perp::error::TariffError;
use tariff_perp::liquidation::require_liquidatable;
use tariff_perp::margin::MarginAccount;
use tariff_perp::market::TariffPerpMarket;
use tariff_perp::math::Q64;
use tariff_perp::oracle::BasketWeight;
use tariff_perp::oracle::CountryAddon;
use tariff_perp::oracle::TariffOracle;
use tariff_perp::pyth::Price;
use tariff_perp::pyth::PriceFeed;
use tariff_perp::pyth::PythFeedAccount;

const NOW: i64 = 1_700_000_000;

fn key(n: u8) -> Pubkey {
    Pubkey { bytes: [n; 32] }
}

fn oracle() -> TariffOracle {
    TariffOracle {
        admin: key(1),
        baseline_tariff_bps: 10_500,
        valid_until_ts: NOW + 86_400,
        last_updated_ts: NOW,
        confidence_bps: 100,
        min_update_interval_secs: 0,
        max_jump_bps_per_update: 50_000,
        last_baseline_bps: 10_500,
        country_addons: [CountryAddon::default(); 16],
        basket_weights: [BasketWeight::default(); 16],
        addon_len: 0,
        weight_len: 0,
        _pad0: [0; 6],
    }
}

fn market() -> TariffPerpMarket {
    TariffPerpMarket {
        admin: key(1),
        oracle: key(2),
        usdc_mint: key(3),
        vault_authority_bump: 254,
        insurance_authority_bump: 253,
        _pad0: [0; 6],
        vault_usdc: key(4),
        insurance_vault_usdc: key(5),
        pyth_sol_usd_feed: key(6),
        last_pyth_publish_time: NOW - 50,
        base_reserve: 1_000_000_000_000,
        quote_reserve: 1_000_000_000_000_000_000,
        invariant_k: 1_000_000_000_000_000_000_000_000_000_000,
        funding_index: 0,
        last_funding_ts: NOW,
        funding_period_secs: 3600,
        initial_margin_bps: 1000,
        maintenance_margin_bps: 500,
        trade_fee_bps: 10,
        liquidation_fee_bps: 100,
        max_insurance_payout_per_liq_usdc: 1_000_000_000,
        fee_to_insurance_bps: 10_000,
        min_trade_base: 10_000_000,
        max_price_impact_bps: 500,
        spread_bps: 10,
        reduce_only: false,
        paused: false,
        _pad1: [0; 2],
        open_interest_base: 0,
        net_position_base: 0,
        max_open_interest_base: 1_000_000_000_000,
        max_skew_base: 1_000_000_000_000,
    }
}

fn good_feed() -> Option<PriceFeed> {
    let price = Price { price: 15_000_000_000, conf: 10_000_000, expo: -8, publish_time: NOW - 5 };
    Some(PriceFeed { id: [6; 32], price, ema_price: price })
}

fn margin(collateral_usdc: u64) -> MarginAccount {
    MarginAccount {
        owner: key(7),
        market: key(8),
        collateral_usdc,
        position_base: 0,
        entry_price_q64: 0,
        last_funding_index: 0,
        realized_pnl_usdc: 0,
        open_notional_q64: 0,
    }
}

fn tokens(mint: u8, owner: u8, amount: u64) -> TokenAccount {
    TokenAccount { mint: key(mint), owner: key(owner), amount }
}

fn feed_account() -> PythFeedAccount {
    PythFeedAccount { key: key(6), data: vec![] }
}

fn deposit_ctx(collateral: u64) -> DepositUsdc {
    DepositUsdc {
        owner: key(7),
        market_key: key(8),
        market: market(),
        margin: margin(collateral),
        user_usdc: tokens(3, 7, 1_000),
        vault_authority: key(9),
        vault_usdc: tokens(3, 9, 0),
    }
}

fn withdraw_ctx(collateral: u64) -> WithdrawUsdc {
    WithdrawUsdc {
        owner: key(7),
        oracle_key: key(2),
        oracle: oracle(),
        market_key: key(8),
        market: market(),
        margin: margin(collateral),
        pyth_feed: feed_account(),
        vault_authority: key(9),
        vault_usdc: tokens(3, 9, 0),
        user_usdc: tokens(3, 7, 0),
    }
}

fn refused(ctx: WithdrawUsdc, amount: u64) -> TariffError {
    let mut after = ctx.clone();
    let error = withdraw_usdc_with_feed(&mut after, &good_feed(), amount, NOW).unwrap_err();
    assert_eq!(after, ctx);
    error
}

#[test]
fn new_margin_account_is_empty() {
    let mut m = market();
    m.funding_index = 42;
    let mut ctx = InitializeMargin { owner: key(7), market_key: key(8), market: m, margin: margin(99) };
    ctx.margin.owner = key(99);
    assert_eq!(initialize_margin(&mut ctx), Ok(()));
    let mut expected = margin(0);
    expected.last_funding_index = 42;
    assert_eq!(ctx.margin, expected);
    assert_eq!(MarginAccount::SPACE, 144);
}

#[test]
fn deposit_is_credited_and_moves_the_tokens() {
    let mut ctx = deposit_ctx(5);
    let out = deposit_usdc(&mut ctx, 100, NOW).unwrap();
    assert_eq!(ctx.margin.collateral_usdc, 105);
    assert_eq!((out.event.market, out.event.user), (key(8), key(7)));
    assert_eq!((out.event.amount_usdc, out.event.ts), (100, NOW));
    assert_eq!((out.transfer.from, out.transfer.to), (TokenSlot::User, TokenSlot::Vault));
    assert_eq!((out.transfer.authority, out.transfer.amount), (TransferAuthority::Owner, 100));
}

#[test]
fn deposit_is_allowed_while_paused() {
    let mut ctx = deposit_ctx(5);
    ctx.market.paused = true;
    ctx.market.reduce_only = true;
    assert!(deposit_usdc(&mut ctx, 100, NOW).is_ok());
}

#[test]
fn deposit_refusals() {
    let mut ctx = deposit_ctx(5);
    assert_eq!(deposit_usdc(&mut ctx, 0, NOW), Err(TariffError::InvalidAmount));
    assert_eq!(deposit_usdc(&mut ctx, u64::MAX, NOW), Err(TariffError::MathOverflow));
    assert_eq!(ctx, deposit_ctx(5));
    ctx.vault_usdc.owner = key(99);
    assert_eq!(deposit_usdc(&mut ctx, 1, NOW), Err(TariffError::InvalidTokenOwner));
    ctx.vault_usdc.mint = key(99);
    assert_eq!(deposit_usdc(&mut ctx, 1, NOW), Err(TariffError::InvalidMint));
    let mut ctx = deposit_ctx(5);
    ctx.user_usdc.mint = key(99);
    assert_eq!(deposit_usdc(&mut ctx, 1, NOW), Err(TariffError::InvalidMint));
    let mut ctx = deposit_ctx(5);
    ctx.market_key = key(99);
    assert_eq!(deposit_usdc(&mut ctx, 1, NOW), Err(TariffError::InvalidMarket));
    ctx.owner = key(99);
    assert_eq!(deposit_usdc(&mut ctx, 0, NOW), Err(TariffError::Unauthorized));
}

#[test]
fn what_was_deposited_can_be_withdrawn() {
    let mut deposit = deposit_ctx(5);
    deposit_usdc(&mut deposit, 100, NOW).unwrap();
    let mut ctx = withdraw_ctx(0);
    ctx.margin = deposit.margin;
    let out = withdraw_usdc_with_feed(&mut ctx, &good_feed(), 100, NOW).unwrap();
    assert_eq!(ctx.margin.collateral_usdc, 5);
    assert_eq!((out.event.market, out.event.user), (key(8), key(7)));
    assert_eq!((out.event.amount_usdc, out.event.ts), (100, NOW));
    assert_eq!((out.transfer.from, out.transfer.to), (TokenSlot::Vault, TokenSlot::User));
    assert_eq!((out.transfer.authority, out.transfer.amount), (TransferAuthority::Vault, 100));
    assert_eq!(ctx.market.last_pyth_publish_time, NOW - 5);
}

#[test]
fn withdrawal_leaves_the_initial_margin() {
    let mut ctx = withdraw_ctx(1_500_000_000);
    ctx.margin.position_base = 10_000_000_000;
    ctx.margin.entry_price_q64 = 1_000_000 * Q64;
    assert_eq!(refused(ctx.clone(), 500_000_001), TariffError::MarginTooLow);
    assert!(withdraw_usdc_with_feed(&mut ctx, &good_feed(), 500_000_000, NOW).is_ok());
    assert_eq!(ctx.margin.collateral_usdc, 1_000_000_000);
    assert_eq!(require_liquidatable(&ctx.market, &ctx.margin), Err(TariffError::NotLiquidatable));
}

#[test]
fn withdrawal_settles_funding_first() {
    let mut ctx = withdraw_ctx(1_000);
    ctx.market.funding_index = -Q64 / 100;
    ctx.margin.position_base = 10_000_000;
    ctx.margin.entry_price_q64 = 1_000_000 * Q64;
    ctx.market.initial_margin_bps = 0;
    assert!(withdraw_usdc_with_feed(&mut ctx, &good_feed(), 1_000, NOW).is_ok());
    let mut ctx = withdraw_ctx(1_000);
    ctx.market.funding_index = -Q64;
    ctx.margin.position_base = 10_000_000;
    ctx.margin.entry_price_q64 = 1_000_000 * Q64;
    ctx.market.initial_margin_bps = 0;
    assert_eq!(refused(ctx.clone(), 991), TariffError::InsufficientCollateral);
    assert!(withdraw_usdc_with_feed(&mut ctx, &good_feed(), 990, NOW).is_ok());
    assert_eq!((ctx.margin.collateral_usdc, ctx.margin.last_funding_index), (0, -Q64));
}

#[test]
fn withdrawal_refusals() {
    assert_eq!(refused(withdraw_ctx(100), 0), TariffError::InvalidAmount);
    assert_eq!(refused(withdraw_ctx(100), 101), TariffError::InsufficientCollateral);
    let mut ctx = withdraw_ctx(100);
    ctx.market.paused = true;
    assert_eq!(refused(ctx, 1), TariffError::Paused);
    let mut ctx = withdraw_ctx(100);
    ctx.oracle.valid_until_ts = NOW - 1;
    assert_eq!(refused(ctx, 1), TariffError::OracleStale);
    let mut ctx = withdraw_ctx(100);
    ctx.user_usdc.mint = key(99);
    assert_eq!(refused(ctx, 1), TariffError::InvalidMint);
    let mut ctx = withdraw_ctx(100);
    ctx.vault_usdc.owner = key(99);
    assert_eq!(refused(ctx, 1), TariffError::InvalidTokenOwner);
    let mut ctx = withdraw_ctx(100);
    ctx.oracle_key = key(99);
    assert_eq!(refused(ctx, 0), TariffError::InvalidOracle);
    let mut ctx = withdraw_ctx(100);
    ctx.market.base_reserve = 0;
    assert_eq!(refused(ctx, 1), TariffError::InvalidReserve);
    let mut ctx = withdraw_ctx(100);
    ctx.market.funding_index = i128::MAX;
    ctx.margin.last_funding_index = -1;
    assert_eq!(refused(ctx, 1), TariffError::MathOverflow);
}
