use tariff_perp::accounts::Pubkey;
use tariff_perp::accounts::TransferAuthority;
use tariff_perp::admin::initialize_market;
use tariff_perp::admin::set_market_config;
use tariff_perp::admin::set_paused;
use tariff_perp::admin::set_reduce_only;
use tariff_perp::admin::InitializeMarket;
use tariff_perp::admin::SetMarketFlags;
use tariff_perp::error::TariffError;
use tariff_perp::market::apply_position_change_to_market;
use tariff_perp::market::check_market_risk_after_change;
use tariff_perp::market::vamm_swap;
use tariff_perp::market::TariffPerpMarket;
use tariff_perp::math::apply_spread_q64;
use tariff_perp::math::base_times_price_to_usdc_micro;
use tariff_perp::math::bps_i128_to_q64;
use tariff_perp::math::clamp_i128;
use tariff_perp::math::i128_abs;
use tariff_perp::math::i128_neg;
use tariff_perp::math::i128_to_i64;
use tariff_perp::math::i128_to_u64;
use tariff_perp::math::mark_price_q64_from_reserves;
use tariff_perp::math::same_sign_nonzero;
use tariff_perp::math::Q64;
use tariff_perp::oracle::BasketWeight;
use tariff_perp::oracle::CountryAddon;
use tariff_perp::oracle::TariffOracle;

fn key(n: u8) -> Pubkey {
    Pubkey { bytes: [n; 32] }
}

fn blank_market() -> TariffPerpMarket {
    TariffPerpMarket {
        admin: key(0),
        oracle: key(0),
        usdc_mint: key(0),
        vault_authority_bump: 0,
        insurance_authority_bump: 0,
        _pad0: [1; 6],
        vault_usdc: key(0),
        insurance_vault_usdc: key(0),
        pyth_sol_usd_feed: key(0),
        last_pyth_publish_time: 5,
        base_reserve: 0,
        quote_reserve: 0,
        invariant_k: 0,
        funding_index: 5,
        last_funding_ts: 0,
        funding_period_secs: 0,
        initial_margin_bps: 0,
        maintenance_margin_bps: 0,
        trade_fee_bps: 0,
        liquidation_fee_bps: 0,
        max_insurance_payout_per_liq_usdc: 0,
        fee_to_insurance_bps: 0,
        min_trade_base: 0,
        max_price_impact_bps: 0,
        spread_bps: 0,
        reduce_only: true,
        paused: true,
        _pad1: [1; 2],
        open_interest_base: 5,
        net_position_base: 5,
        max_open_interest_base: 0,
        max_skew_base: 0,
    }
}

fn market_ctx() -> InitializeMarket {
    InitializeMarket {
        admin: key(1),
        oracle: key(2),
        usdc_mint: key(3),
        market: blank_market(),
        vault_authority_bump: 254,
        insurance_authority_bump: 253,
        vault_usdc: key(4),
        insurance_vault_usdc: key(5),
    }
}

fn new_market(base: i128, quote: i128) -> TariffPerpMarket {
    let mut ctx = market_ctx();
    let res = initialize_market(
        &mut ctx, base, quote, 1000, 500, 10, 100, 1_000_000_000_000, 1_000_000_000_000, key(6), 77,
    );
    assert_eq!(res, Ok(()));
    ctx.market
}

#[test]
fn new_market_has_the_defaults() {
    let m = new_market(1_000_000_000_000, 1_000_000_000_000_000_000);
    assert_eq!((m.admin, m.oracle, m.usdc_mint), (key(1), key(2), key(3)));
    assert_eq!((m.vault_usdc, m.insurance_vault_usdc, m.pyth_sol_usd_feed), (key(4), key(5), key(6)));
    assert_eq!((m.vault_authority_bump, m.insurance_authority_bump), (254, 253));
    assert_eq!(m.last_pyth_publish_time, 0);
    assert_eq!(m.invariant_k, 1_000_000_000_000_000_000_000_000_000_000);
    assert_eq!((m.funding_index, m.last_funding_ts, m.funding_period_secs), (0, 77, 3600));
    assert_eq!((m.initial_margin_bps, m.maintenance_margin_bps), (1000, 500));
    assert_eq!((m.trade_fee_bps, m.liquidation_fee_bps), (10, 100));
    assert_eq!(m.max_insurance_payout_per_liq_usdc, 1_000_000_000);
    assert_eq!(m.fee_to_insurance_bps, 10_000);
    assert_eq!(m.min_trade_base, 10_000_000);
    assert_eq!((m.max_price_impact_bps, m.spread_bps), (500, 10));
    assert_eq!((m.reduce_only, m.paused), (false, false));
    assert_eq!((m.open_interest_base, m.net_position_base), (0, 0));
    assert_eq!(m._pad0, [0; 6]);
    assert_eq!(m._pad1, [0; 2]);
    assert_eq!(TariffPerpMarket::SPACE, 394);
}

#[test]
fn market_parameters_are_checked() {
    let cases: Vec<(i128, i128, u16, u16, u16, u16, TariffError)> = vec![
        (1, 1, 10_001, 1, 1, 1, TariffError::InvalidBps),
        (1, 1, 10_000, 10_001, 1, 1, TariffError::InvalidBps),
        (1, 1, 500, 501, 10_001, 1, TariffError::BadMarginParams),
        (1, 1, 500, 500, 10_001, 1, TariffError::InvalidBps),
        (1, 1, 500, 500, 1, 10_001, TariffError::InvalidBps),
        (0, 1, 500, 500, 1, 1, TariffError::InvalidReserve),
        (1, 0, 500, 500, 1, 1, TariffError::InvalidReserve),
        (-1, -1, 500, 500, 1, 1, TariffError::InvalidReserve),
        (i128::MAX, 2, 500, 500, 1, 1, TariffError::MathOverflow),
    ];
    for (base, quote, im, mm, fee, liq, error) in cases {
        let mut ctx = market_ctx();
        assert_eq!(initialize_market(&mut ctx, base, quote, im, mm, fee, liq, 1, 1, key(6), 77), Err(error));
        assert_eq!(ctx, market_ctx());
    }
}

#[test]
fn switches_are_the_admins() {
    let market = new_market(1000, 1000);
    let mut ctx = SetMarketFlags { admin: key(2), market };
    assert_eq!(set_paused(&mut ctx, true), Err(TariffError::Unauthorized));
    assert_eq!(set_reduce_only(&mut ctx, true), Err(TariffError::Unauthorized));
    assert_eq!(
        set_market_config(&mut ctx, 1, 10_001, 0, 0, 10_001, 10_001),
        Err(TariffError::Unauthorized)
    );
    assert_eq!(ctx.market, market);
    ctx.admin = key(1);
    assert_eq!(set_paused(&mut ctx, true), Ok(()));
    assert!(ctx.market.paused && !ctx.market.reduce_only);
    assert_eq!(set_reduce_only(&mut ctx, true), Ok(()));
    assert!(ctx.market.paused && ctx.market.reduce_only);
    assert_eq!(set_paused(&mut ctx, false), Ok(()));
    assert_eq!(set_reduce_only(&mut ctx, false), Ok(()));
    assert_eq!(ctx.market, market);
}

#[test]
fn configuration_is_checked_and_set() {
    let market = new_market(1000, 1000);
    let mut ctx = SetMarketFlags { admin: key(1), market };
    assert_eq!(set_market_config(&mut ctx, 1, 10_001, 0, 0, 0, 0), Err(TariffError::InvalidBps));
    assert_eq!(set_market_config(&mut ctx, 1, 10_000, 0, 1, 0, 0), Err(TariffError::InvalidConfig));
    assert_eq!(set_market_config(&mut ctx, 1, 10_000, 1, 0, 0, 0), Err(TariffError::InvalidConfig));
    assert_eq!(set_market_config(&mut ctx, 1, 10_000, 1, 1, 10_001, 0), Err(TariffError::InvalidBps));
    assert_eq!(set_market_config(&mut ctx, 1, 10_000, 1, 1, 0, 10_001), Err(TariffError::InvalidBps));
    assert_eq!(ctx.market, market);
    assert_eq!(set_market_config(&mut ctx, 11, 12, 13, 14, 15, 16), Ok(()));
    assert_eq!(ctx.market.max_insurance_payout_per_liq_usdc, 11);
    assert_eq!(ctx.market.fee_to_insurance_bps, 12);
    assert_eq!(ctx.market.funding_period_secs, 13);
    assert_eq!(ctx.market.min_trade_base, 14);
    assert_eq!(ctx.market.max_price_impact_bps, 15);
    assert_eq!(ctx.market.spread_bps, 16);
}

#[test]
fn program_signs_for_the_vaults_only() {
    let m = new_market(1000, 1000);
    assert_eq!(TransferAuthority::Owner.seed_prefix(), None);
    assert_eq!(TransferAuthority::Vault.seed_prefix(), Some("vault_auth"));
    assert_eq!(TransferAuthority::Insurance.seed_prefix(), Some("insurance"));
    assert_eq!(m.signer_bump(TransferAuthority::Owner), None);
    assert_eq!(m.signer_bump(TransferAuthority::Vault), Some(254));
    assert_eq!(m.signer_bump(TransferAuthority::Insurance), Some(253));
}

#[test]
fn buying_base_moves_along_the_curve() {
    let m = new_market(1_000_000_000_000, 1_000_000_000_000_000_000);
    let s = vamm_swap(&m, 10_000_000_000).unwrap();
    assert_eq!(s.price_q64, 18633074821928839997528541);
    assert_eq!(s.quote_delta, 10101010101010101);
    assert_eq!(s.new_base, 990000000000);
    assert_eq!(s.new_quote, 1010101010101010101);
    assert!(s.new_base * s.new_quote <= m.invariant_k);
    assert!(s.new_base * (s.new_quote + 1) > m.invariant_k);
    assert!(mark_price_q64_from_reserves(s.new_base, s.new_quote).unwrap() > m.mark_price_q64().unwrap());
}

#[test]
fn selling_base_moves_along_the_curve() {
    let m = new_market(1_000_000_000_000, 1_000_000_000_000_000_000);
    let s = vamm_swap(&m, -10_000_000_000).unwrap();
    assert_eq!(s.price_q64, 18264103043276783796481924);
    assert_eq!(s.quote_delta, -9900990099009901);
    assert_eq!(s.new_base, 1010000000000);
    assert_eq!(s.new_quote, 990099009900990099);
    assert!(mark_price_q64_from_reserves(s.new_base, s.new_quote).unwrap() < m.mark_price_q64().unwrap());
}

#[test]
fn reverse_swap_restores_the_reserves() {
    let mut m = new_market(1_000_000_000_000, 1_000_000_000_000_000_000);
    let there = vamm_swap(&m, 12_345_678_901).unwrap();
    m.base_reserve = there.new_base;
    m.quote_reserve = there.new_quote;
    let back = vamm_swap(&m, -12_345_678_901).unwrap();
    assert_eq!(back.new_base, 1_000_000_000_000);
    assert_eq!(back.new_quote, 1_000_000_000_000_000_000);
    assert_eq!(back.price_q64, there.price_q64);
}

#[test]
fn two_swaps_add_up() {
    let m = new_market(1_000_000_000_000, 1_000_000_000_000_000_000);
    let first = vamm_swap(&m, 7_000_000_000).unwrap();
    let mut after = m;
    after.base_reserve = first.new_base;
    after.quote_reserve = first.new_quote;
    let second = vamm_swap(&after, 5_000_000_000).unwrap();
    let direct = vamm_swap(&m, 12_000_000_000).unwrap();
    assert_eq!((second.new_base, second.new_quote), (direct.new_base, direct.new_quote));
}

#[test]
fn swap_refusals() {
    let m = new_market(1000, 1000);
    assert_eq!(vamm_swap(&m, 0), Err(TariffError::InvalidAmount));
    assert_eq!(vamm_swap(&m, 1000), Err(TariffError::InsufficientLiquidity));
    assert!(vamm_swap(&m, 999).is_ok());
    assert_eq!(vamm_swap(&m, i128::MIN), Err(TariffError::MathOverflow));
    assert_eq!(vamm_swap(&m, -i128::MAX), Err(TariffError::MathOverflow));
    let mut broken = m;
    broken.invariant_k = 0;
    assert_eq!(vamm_swap(&broken, 1), Err(TariffError::InvalidReserve));
    let mut off = m;
    off.quote_reserve = 500;
    assert_eq!(vamm_swap(&off, -1), Err(TariffError::InsufficientLiquidity));
    off.quote_reserve = 2000;
    assert_eq!(vamm_swap(&off, 1), Err(TariffError::MathOverflow));
    let deep = new_market(2, i128::MAX / 2);
    assert_eq!(vamm_swap(&deep, 1), Err(TariffError::MathOverflow));
}

#[test]
fn mark_price_is_quote_over_base() {
    assert_eq!(mark_price_q64_from_reserves(2, 3), Ok(Q64 + Q64 / 2));
    assert_eq!(mark_price_q64_from_reserves(3, 1), Ok(6148914691236517205));
    assert_eq!(mark_price_q64_from_reserves(0, 1), Err(TariffError::InvalidReserve));
    assert_eq!(mark_price_q64_from_reserves(1, -1), Err(TariffError::InvalidReserve));
    assert_eq!(mark_price_q64_from_reserves(1, 1 << 63), Err(TariffError::MathOverflow));
    assert_eq!(mark_price_q64_from_reserves(1, (1 << 63) - 1), Ok(((1 << 63) - 1) * Q64));
}

#[test]
fn index_price_is_the_index_as_a_fraction() {
    let oracle = TariffOracle {
        admin: key(1),
        baseline_tariff_bps: 10_500,
        valid_until_ts: 0,
        last_updated_ts: 0,
        confidence_bps: 0,
        min_update_interval_secs: 0,
        max_jump_bps_per_update: 0,
        last_baseline_bps: 0,
        country_addons: [CountryAddon::default(); 16],
        basket_weights: [BasketWeight::default(); 16],
        addon_len: 16,
        weight_len: 16,
        _pad0: [0; 6],
    };
    let m = new_market(1000, 1000);
    assert_eq!(m.index_price_q64(&oracle), Ok(19369081277395029196));
}

#[test]
fn spread_is_against_the_trader() {
    assert_eq!(apply_spread_q64(1_000_000, 10, 0), Ok(1_001_000));
    assert_eq!(apply_spread_q64(1_000_000, 10, 1), Ok(999_000));
    assert_eq!(apply_spread_q64(999, 10, 0), Ok(999));
    assert_eq!(apply_spread_q64(999, 10, 1), Ok(998));
    assert_eq!(apply_spread_q64(1_000_000, 10_000, 1), Ok(0));
    assert_eq!(apply_spread_q64(1, 10_001, 0), Err(TariffError::InvalidBps));
    assert_eq!(apply_spread_q64(i128::MAX, 0, 0), Err(TariffError::MathOverflow));
}

#[test]
fn fixed_point_helpers() {
    assert_eq!(Q64, 1i128 << 64);
    assert_eq!(clamp_i128(5, 1, 3), Ok(3));
    assert_eq!(clamp_i128(0, 1, 3), Ok(1));
    assert_eq!(clamp_i128(2, 1, 3), Ok(2));
    assert_eq!(clamp_i128(2, 3, 1), Err(TariffError::MathOverflow));
    assert_eq!(i128_abs(-7), Ok(7));
    assert_eq!(i128_abs(i128::MIN), Err(TariffError::MathOverflow));
    assert_eq!(i128_neg(7), Ok(-7));
    assert_eq!(i128_neg(i128::MIN), Err(TariffError::MathOverflow));
    assert_eq!(i128_to_u64(u64::MAX as i128), Ok(u64::MAX));
    assert_eq!(i128_to_u64(u64::MAX as i128 + 1), Err(TariffError::MathOverflow));
    assert_eq!(i128_to_u64(-1), Err(TariffError::MathOverflow));
    assert_eq!(i128_to_i64(i64::MIN as i128), Ok(i64::MIN));
    assert_eq!(i128_to_i64(i64::MIN as i128 - 1), Err(TariffError::MathOverflow));
    assert_eq!(i128_to_i64(i64::MAX as i128 + 1), Err(TariffError::MathOverflow));
    assert_eq!(bps_i128_to_q64(50), Ok(92233720368547758));
    assert_eq!(bps_i128_to_q64(-50), Ok(-92233720368547758));
    assert_eq!(bps_i128_to_q64(i128::MAX), Err(TariffError::MathOverflow));
    assert_eq!(base_times_price_to_usdc_micro(2_500_000, 3 * Q64), Ok(7));
    assert_eq!(base_times_price_to_usdc_micro(-2_500_000, 3 * Q64), Ok(-7));
    assert_eq!(base_times_price_to_usdc_micro(i128::MAX, 2), Err(TariffError::MathOverflow));
    assert!(same_sign_nonzero(1, 2) && same_sign_nonzero(-1, -2));
    assert!(!same_sign_nonzero(0, 0) && !same_sign_nonzero(1, 0) && !same_sign_nonzero(1, -1));
}

#[test]
fn limits_bound_interest_and_skew() {
    let mut m = new_market(1000, 1000);
    m.max_open_interest_base = 100;
    m.max_skew_base = 40;
    m.open_interest_base = 60;
    m.net_position_base = 20;
    assert_eq!(check_market_risk_after_change(&m, 0, 20), Ok(()));
    assert_eq!(check_market_risk_after_change(&m, 0, 21), Err(TariffError::RiskLimit));
    assert_eq!(check_market_risk_after_change(&m, 0, -40), Ok(()));
    assert_eq!(check_market_risk_after_change(&m, 0, -41), Err(TariffError::RiskLimit));
    assert_eq!(check_market_risk_after_change(&m, 61, 0), Err(TariffError::MathOverflow));
    assert_eq!(check_market_risk_after_change(&m, i128::MIN, 0), Err(TariffError::MathOverflow));
    assert_eq!(check_market_risk_after_change(&m, 0, i128::MAX), Err(TariffError::MathOverflow));
    let before = m;
    assert_eq!(apply_position_change_to_market(&mut m, 0, 21), Err(TariffError::RiskLimit));
    assert_eq!(m, before);
    assert_eq!(apply_position_change_to_market(&mut m, 10, -20), Ok(()));
    assert_eq!((m.open_interest_base, m.net_position_base), (70, -10));
}

#[test]
fn skew_alone_can_stop_a_close() {
    // One long and one short of the same size, and no skew allowed.
    let mut m = new_market(1000, 1000);
    m.max_open_interest_base = 100;
    m.max_skew_base = 0;
    m.open_interest_base = 20;
    m.net_position_base = 0;
    assert_eq!(check_market_risk_after_change(&m, 10, 0), Err(TariffError::RiskLimit));
    m.max_skew_base = 10;
    assert_eq!(check_market_risk_after_change(&m, 10, 0), Ok(()));
}

#[test]
fn tracking_sums_all_positions() {
    let mut m = new_market(1000, 1000);
    let mut positions: [i128; 3] = [0, 0, 0];
    for (i, to) in [(0usize, 30i128), (1, -20), (2, 5), (0, -7), (1, 0), (2, 9)] {
        assert_eq!(apply_position_change_to_market(&mut m, positions[i], to), Ok(()));
        positions[i] = to;
        let interest: i128 = positions.iter().map(|p| p.abs()).sum();
        let net: i128 = positions.iter().sum();
        assert_eq!((m.open_interest_base, m.net_position_base), (interest, net));
    }
}
