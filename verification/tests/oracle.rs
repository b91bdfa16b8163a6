use tariff_perp::accounts::Pubkey;
use tariff_perp::error::TariffError;
use tariff_perp::oracle::initialize_oracle;
use tariff_perp::oracle::oracle_set_baseline;
use tariff_perp::oracle::oracle_set_guardrails;
use tariff_perp::oracle::oracle_upsert_basket_weight;
use tariff_perp::oracle::oracle_upsert_country_addon;
use tariff_perp::oracle::BasketWeight;
use tariff_perp::oracle::CountryAddon;
use tariff_perp::oracle::InitializeOracle;
use tariff_perp::oracle::OracleSetBaseline;
use tariff_perp::oracle::OracleSetGuardrails;
use tariff_perp::oracle::OracleUpsertAddon;
use tariff_perp::oracle::OracleUpsertWeight;
use tariff_perp::oracle::TariffOracle;

fn key(n: u8) -> Pubkey {
    Pubkey { bytes: [n; 32] }
}

fn blank() -> TariffOracle {
    TariffOracle {
        admin: key(0),
        baseline_tariff_bps: 0,
        valid_until_ts: 0,
        last_updated_ts: 0,
        confidence_bps: 0,
        min_update_interval_secs: 7,
        max_jump_bps_per_update: 7,
        last_baseline_bps: 0,
        country_addons: [CountryAddon::default(); 16],
        basket_weights: [BasketWeight::default(); 16],
        addon_len: 3,
        weight_len: 4,
        _pad0: [9; 6],
    }
}

fn new_oracle(baseline: u16) -> TariffOracle {
    let mut ctx = InitializeOracle { admin: key(1), oracle: blank() };
    assert_eq!(initialize_oracle(&mut ctx, baseline, 100, 3600, 1000), Ok(()));
    ctx.oracle
}

fn add(oracle: TariffOracle, code: [u8; 2], bps: i16, enabled: bool, now: i64) -> Result<TariffOracle, TariffError> {
    let mut ctx = OracleUpsertAddon { admin: key(1), oracle };
    match oracle_upsert_country_addon(&mut ctx, code, bps, enabled, now) {
        Ok(()) => Ok(ctx.oracle),
        Err(e) => {
            assert_eq!(ctx.oracle, oracle);
            Err(e)
        }
    }
}

fn weigh(oracle: TariffOracle, code: [u8; 2], bps: u16, enabled: bool, now: i64) -> Result<TariffOracle, TariffError> {
    let mut ctx = OracleUpsertWeight { admin: key(1), oracle };
    match oracle_upsert_basket_weight(&mut ctx, code, bps, enabled, now) {
        Ok(()) => Ok(ctx.oracle),
        Err(e) => {
            assert_eq!(ctx.oracle, oracle);
            Err(e)
        }
    }
}

#[test]
fn new_oracle_is_empty_and_valid_for_its_window() {
    let oracle = new_oracle(1100);
    assert_eq!(oracle.admin, key(1));
    assert_eq!(oracle.baseline_tariff_bps, 1100);
    assert_eq!(oracle.last_baseline_bps, 1100);
    assert_eq!(oracle.confidence_bps, 100);
    assert_eq!(oracle.min_update_interval_secs, 0);
    assert_eq!(oracle.max_jump_bps_per_update, 50_000);
    assert_eq!(oracle.last_updated_ts, 1000);
    assert_eq!(oracle.valid_until_ts, 4600);
    assert_eq!((oracle.addon_len, oracle.weight_len), (0, 0));
    assert_eq!(oracle._pad0, [0; 6]);
    assert_eq!(oracle.country_addons[15], CountryAddon::default());
    assert_eq!(oracle.basket_weights[15], BasketWeight::default());
    assert_eq!(oracle.require_valid(4600), Ok(()));
    assert_eq!(oracle.require_valid(4601), Err(TariffError::OracleStale));
}

#[test]
fn initialization_refuses_wide_confidence_and_endless_windows() {
    let mut ctx = InitializeOracle { admin: key(1), oracle: blank() };
    assert_eq!(initialize_oracle(&mut ctx, 1, 10_001, 1, 0), Err(TariffError::InvalidBps));
    assert_eq!(initialize_oracle(&mut ctx, 1, 10_000, i64::MAX, 1), Err(TariffError::MathOverflow));
    assert_eq!(ctx.oracle, blank());
    assert_eq!(initialize_oracle(&mut ctx, 1, 10_000, i64::MAX, 0), Ok(()));
}

#[test]
fn guardrails_are_set_by_the_admin_only() {
    let oracle = new_oracle(1100);
    let mut ctx = OracleSetGuardrails { admin: key(2), oracle };
    assert_eq!(oracle_set_guardrails(&mut ctx, -1, 50_001), Err(TariffError::InvalidConfig));
    assert_eq!(oracle_set_guardrails(&mut ctx, 0, 50_001), Err(TariffError::InvalidBps));
    assert_eq!(oracle_set_guardrails(&mut ctx, 60, 500), Err(TariffError::Unauthorized));
    assert_eq!(ctx.oracle, oracle);
    ctx.admin = key(1);
    assert_eq!(oracle_set_guardrails(&mut ctx, 60, 500), Ok(()));
    assert_eq!(ctx.oracle.min_update_interval_secs, 60);
    assert_eq!(ctx.oracle.max_jump_bps_per_update, 500);
}

#[test]
fn baseline_update_is_reported_and_renews_the_window() {
    let mut ctx = OracleSetBaseline { admin: key(1), oracle_key: key(9), oracle: new_oracle(1100) };
    let event = oracle_set_baseline(&mut ctx, 1250, 600, 2000).unwrap();
    assert_eq!(event.oracle, key(9));
    assert_eq!(event.admin, key(1));
    assert_eq!(event.baseline_bps, 1250);
    assert_eq!(event.valid_until_ts, 2600);
    assert_eq!(event.ts, 2000);
    assert_eq!(ctx.oracle.baseline_tariff_bps, 1250);
    assert_eq!(ctx.oracle.last_baseline_bps, 1100);
    assert_eq!(ctx.oracle.last_updated_ts, 2000);
    assert_eq!(ctx.oracle.require_valid(2600), Ok(()));
    assert_eq!(ctx.oracle.require_valid(2601), Err(TariffError::OracleStale));
}

#[test]
fn baseline_update_keeps_interval_and_jump_limit() {
    let mut oracle = new_oracle(1100);
    oracle.min_update_interval_secs = 60;
    oracle.max_jump_bps_per_update = 100;
    let mut ctx = OracleSetBaseline { admin: key(1), oracle_key: key(9), oracle };
    assert_eq!(oracle_set_baseline(&mut ctx, 1150, 600, 999), Err(TariffError::MathOverflow));
    assert_eq!(oracle_set_baseline(&mut ctx, 1150, 600, 1059), Err(TariffError::OracleUpdateTooSoon));
    assert_eq!(oracle_set_baseline(&mut ctx, 1201, 600, 1060), Err(TariffError::BaselineJumpTooLarge));
    assert_eq!(oracle_set_baseline(&mut ctx, 999, 600, 1060), Err(TariffError::BaselineJumpTooLarge));
    assert_eq!(oracle_set_baseline(&mut ctx, 1000, i64::MAX, 1060), Err(TariffError::MathOverflow));
    assert_eq!(ctx.oracle, oracle);
    assert!(oracle_set_baseline(&mut ctx, 1000, 600, 1060).is_ok());
    assert_eq!(oracle_set_baseline(&mut ctx, 1100, 600, 1119), Err(TariffError::OracleUpdateTooSoon));
    assert!(oracle_set_baseline(&mut ctx, 1100, 600, 1120).is_ok());
    ctx.admin = key(2);
    assert_eq!(oracle_set_baseline(&mut ctx, 1100, 600, 5000), Err(TariffError::Unauthorized));
}

#[test]
fn update_time_difference_must_fit() {
    let mut oracle = new_oracle(1100);
    oracle.last_updated_ts = i64::MIN;
    assert_eq!(oracle.require_can_update(0), Err(TariffError::MathOverflow));
    assert_eq!(oracle.require_can_update(-1), Ok(()));
}

#[test]
fn index_counts_matching_enabled_pairs_only() {
    let mut oracle = new_oracle(1000);
    assert_eq!(oracle.tariff_index_bps_i128(), Ok(1000));
    oracle = add(oracle, *b"US", 500, true, 1001).unwrap();
    assert_eq!(oracle.tariff_index_bps_i128(), Ok(1000));
    oracle = weigh(oracle, *b"US", 6000, true, 1002).unwrap();
    assert_eq!(oracle.tariff_index_bps_i128(), Ok(1300));
    oracle = weigh(oracle, *b"CN", 4000, true, 1003).unwrap();
    assert_eq!(oracle.tariff_index_bps_i128(), Ok(1300));
    oracle = add(oracle, *b"CN", -333, true, 1004).unwrap();
    // -333 * 4000 / 10000 = -133.2, rounded toward zero
    assert_eq!(oracle.tariff_index_bps_i128(), Ok(1167));
    oracle = add(oracle, *b"US", 500, false, 1005).unwrap();
    assert_eq!(oracle.tariff_index_bps_i128(), Ok(867));
    oracle = weigh(oracle, *b"CN", 4000, false, 1006).unwrap();
    assert_eq!(oracle.tariff_index_bps_i128(), Ok(1000));
}

#[test]
fn index_is_clamped() {
    let mut oracle = new_oracle(1000);
    oracle = weigh(oracle, *b"US", 10_000, true, 1001).unwrap();
    let low = add(oracle, *b"US", -2000, true, 1002).unwrap();
    assert_eq!(low.tariff_index_bps_i128(), Ok(0));
    let mut high = add(oracle, *b"US", 30_000, true, 1002).unwrap();
    assert_eq!(high.tariff_index_bps_i128(), Ok(31_000));
    high.baseline_tariff_bps = 65_535;
    assert_eq!(high.tariff_index_bps_i128(), Ok(50_000));
}

#[test]
fn set_addon_is_read_back_and_others_stay() {
    let mut oracle = new_oracle(1000);
    oracle = add(oracle, *b"US", 1, true, 1001).unwrap();
    oracle = add(oracle, *b"CN", 2, true, 1002).unwrap();
    oracle.country_addons[0]._pad = [5, 6, 7];
    let after = add(oracle, *b"US", -9, false, 1003).unwrap();
    assert_eq!(after.addon_len, 2);
    assert_eq!(after.country_addons[0].country_code, *b"US");
    assert_eq!(after.country_addons[0].addon_bps, -9);
    assert!(!after.country_addons[0].enabled);
    assert_eq!(after.country_addons[0]._pad, [5, 6, 7]);
    assert_eq!(after.country_addons[1], oracle.country_addons[1]);
    assert_eq!(after.last_updated_ts, 1003);
    assert_eq!(after.weight_len, 0);
}

#[test]
fn last_addon_wins() {
    let oracle = add(new_oracle(1000), *b"CN", 2, true, 1001).unwrap();
    let twice = add(add(oracle, *b"US", 1, true, 1002).unwrap(), *b"US", -9, false, 1003).unwrap();
    let once = add(oracle, *b"US", -9, false, 1003).unwrap();
    assert_eq!(twice, once);
}

#[test]
fn last_weight_wins() {
    let oracle = weigh(new_oracle(1000), *b"CN", 2, true, 1001).unwrap();
    let twice = weigh(weigh(oracle, *b"US", 1, true, 1002).unwrap(), *b"US", 9, false, 1003).unwrap();
    let once = weigh(oracle, *b"US", 9, false, 1003).unwrap();
    assert_eq!(twice, once);
    assert_eq!(twice.basket_weights[0], oracle.basket_weights[0]);
    assert_eq!(twice.basket_weights[1].weight_bps, 9);
}

#[test]
fn full_tables_take_only_their_countries() {
    let mut oracle = new_oracle(1000);
    for i in 0..16u8 {
        oracle = add(oracle, [b'A', i], i as i16, true, 1001).unwrap();
        oracle = weigh(oracle, [b'A', i], i as u16, true, 1001).unwrap();
    }
    assert_eq!((oracle.addon_len, oracle.weight_len), (16, 16));
    assert_eq!(add(oracle, *b"ZZ", 1, true, 1002), Err(TariffError::ArrayFull));
    assert_eq!(weigh(oracle, *b"ZZ", 1, true, 1002), Err(TariffError::ArrayFull));
    let after = add(oracle, [b'A', 15], 77, true, 1002).unwrap();
    assert_eq!(after.country_addons[15].addon_bps, 77);
    let after = weigh(oracle, [b'A', 15], 77, true, 1002).unwrap();
    assert_eq!(after.basket_weights[15].weight_bps, 77);
}

#[test]
fn upserts_are_guarded() {
    let mut oracle = new_oracle(1000);
    oracle.min_update_interval_secs = 10;
    assert_eq!(add(oracle, *b"US", 1, true, 1009), Err(TariffError::OracleUpdateTooSoon));
    assert_eq!(weigh(oracle, *b"US", 1, true, 1009), Err(TariffError::OracleUpdateTooSoon));
    assert_eq!(weigh(oracle, *b"US", 10_001, true, 1009), Err(TariffError::InvalidBps));
    assert!(weigh(oracle, *b"US", 10_000, true, 1010).is_ok());
    oracle.admin = key(2);
    assert_eq!(add(oracle, *b"US", 1, true, 1010), Err(TariffError::Unauthorized));
    assert_eq!(weigh(oracle, *b"US", 1, true, 1010), Err(TariffError::Unauthorized));
}

#[test]
fn oracle_space_is_the_sum_of_its_fields() {
    assert_eq!(CountryAddon::SPACE, 8);
    assert_eq!(BasketWeight::SPACE, 8);
    assert_eq!(TariffOracle::SPACE, 328);
}
