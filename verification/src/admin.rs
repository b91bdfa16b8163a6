//! Creating a market and setting its switches and its configuration.

use crate::accounts;
use crate::accounts::Pubkey;
use crate::error;
use crate::error::TariffError;
use crate::market::TariffPerpMarket;
use crate::math;
use crate::math::BASE_Q;
use vstd::prelude::*;

verus! {

/// The accounts of `initialize_market`.
#[derive(Clone, Copy, Debug, PartialEq, Eq)]
pub struct InitializeMarket {
    pub admin: Pubkey,
    /// Address of the oracle that the market reads.
    pub oracle: Pubkey,
    /// Address of the mint of the collateral.
    pub usdc_mint: Pubkey,
    pub market: TariffPerpMarket,
    /// Bump of the vault authority's derived address.
    pub vault_authority_bump: u8,
    /// Bump of the insurance authority's derived address.
    pub insurance_authority_bump: u8,
    /// Address of the vault.
    pub vault_usdc: Pubkey,
    /// Address of the insurance vault.
    pub insurance_vault_usdc: Pubkey,
}

/// The accounts of the instructions that set a market's switches and configuration.
#[derive(Clone, Copy, Debug, PartialEq, Eq)]
pub struct SetMarketFlags {
    pub admin: Pubkey,
    pub market: TariffPerpMarket,
}

/// When a market cannot be initialized.
pub open spec fn initialize_market_refusal(
    base_reserve: i128,
    quote_reserve: i128,
    initial_margin_bps: u16,
    maintenance_margin_bps: u16,
    trade_fee_bps: u16,
    liquidation_fee_bps: u16,
) -> Option<TariffError> {
    if initial_margin_bps > 10_000 || maintenance_margin_bps > 10_000 {
        Some(TariffError::InvalidBps)
    } else if maintenance_margin_bps > initial_margin_bps {
        Some(TariffError::BadMarginParams)
    } else if trade_fee_bps > 10_000 || liquidation_fee_bps > 10_000 {
        Some(TariffError::InvalidBps)
    } else if base_reserve <= 0 || quote_reserve <= 0 {
        Some(TariffError::InvalidReserve)
    } else {
        error::overflow_unless(math::in_i128(base_reserve * quote_reserve))
    }
}

/// The market as it is created at `now`: no positions, no funding, hourly funding periods, all
/// fees to the insurance fund, a payout cap of 1,000 USDC, a minimum trade of ten base units, a
/// price impact of at most 5 percent and a spread of 0.1 percent.
pub open spec fn new_market(
    ctx: InitializeMarket,
    base_reserve: i128,
    quote_reserve: i128,
    initial_margin_bps: u16,
    maintenance_margin_bps: u16,
    trade_fee_bps: u16,
    liquidation_fee_bps: u16,
    max_open_interest_base: i128,
    max_skew_base: i128,
    pyth_sol_usd_feed: Pubkey,
    now: i64,
) -> TariffPerpMarket {
    TariffPerpMarket {
        admin: ctx.admin,
        oracle: ctx.oracle,
        usdc_mint: ctx.usdc_mint,
        vault_authority_bump: ctx.vault_authority_bump,
        insurance_authority_bump: ctx.insurance_authority_bump,
        _pad0: [0u8, 0u8, 0u8, 0u8, 0u8, 0u8],
        vault_usdc: ctx.vault_usdc,
        insurance_vault_usdc: ctx.insurance_vault_usdc,
        pyth_sol_usd_feed,
        last_pyth_publish_time: 0,
        base_reserve,
        quote_reserve,
        invariant_k: (base_reserve * quote_reserve) as i128,
        funding_index: 0,
        last_funding_ts: now,
        funding_period_secs: 3600,
        initial_margin_bps,
        maintenance_margin_bps,
        trade_fee_bps,
        liquidation_fee_bps,
        max_insurance_payout_per_liq_usdc: 1_000_000_000,
        fee_to_insurance_bps: 10_000,
        min_trade_base: (10 * BASE_Q) as i128,
        max_price_impact_bps: 500,
        spread_bps: 10,
        reduce_only: false,
        paused: false,
        _pad1: [0u8, 0u8],
        open_interest_base: 0,
        net_position_base: 0,
        max_open_interest_base,
        max_skew_base,
    }
}

/// Initializes a market.
pub fn initialize_market(
    ctx: &mut InitializeMarket,
    base_reserve: i128,
    quote_reserve: i128,
    initial_margin_bps: u16,
    maintenance_margin_bps: u16,
    trade_fee_bps: u16,
    liquidation_fee_bps: u16,
    max_open_interest_base: i128,
    max_skew_base: i128,
    pyth_sol_usd_feed: Pubkey,
    now: i64,
) -> (res: Result<(), TariffError>)
    ensures
        error::outcome(
            res,
            initialize_market_refusal(
                base_reserve,
                quote_reserve,
                initial_margin_bps,
                maintenance_margin_bps,
                trade_fee_bps,
                liquidation_fee_bps,
            ),
            (),
        ),
        *final(ctx) == (if res is Ok {
            InitializeMarket {
                market: new_market(
                    *old(ctx),
                    base_reserve,
                    quote_reserve,
                    initial_margin_bps,
                    maintenance_margin_bps,
                    trade_fee_bps,
                    liquidation_fee_bps,
                    max_open_interest_base,
                    max_skew_base,
                    pyth_sol_usd_feed,
                    now,
                ),
                ..*old(ctx)
            }
        } else {
            *old(ctx)
        }),
{
    if initial_margin_bps > 10_000 {
        return Err(TariffError::InvalidBps);
    }
    if maintenance_margin_bps > 10_000 {
        return Err(TariffError::InvalidBps);
    }
    if maintenance_margin_bps > initial_margin_bps {
        return Err(TariffError::BadMarginParams);
    }
    if trade_fee_bps > 10_000 {
        return Err(TariffError::InvalidBps);
    }
    if liquidation_fee_bps > 10_000 {
        return Err(TariffError::InvalidBps);
    }
    if base_reserve <= 0 {
        return Err(TariffError::InvalidReserve);
    }
    if quote_reserve <= 0 {
        return Err(TariffError::InvalidReserve);
    }
    let k: i128 = base_reserve.checked_mul(quote_reserve).ok_or(TariffError::MathOverflow)?;
    let min_trade_base: i128 = 10i128.checked_mul(BASE_Q).ok_or(TariffError::MathOverflow)?;
    ctx.market = TariffPerpMarket {
        admin: ctx.admin,
        oracle: ctx.oracle,
        usdc_mint: ctx.usdc_mint,
        vault_authority_bump: ctx.vault_authority_bump,
        insurance_authority_bump: ctx.insurance_authority_bump,
        _pad0: [0u8, 0u8, 0u8, 0u8, 0u8, 0u8],
        vault_usdc: ctx.vault_usdc,
        insurance_vault_usdc: ctx.insurance_vault_usdc,
        pyth_sol_usd_feed,
        last_pyth_publish_time: 0,
        base_reserve,
        quote_reserve,
        invariant_k: k,
        funding_index: 0,
        last_funding_ts: now,
        funding_period_secs: 3600,
        initial_margin_bps,
        maintenance_margin_bps,
        trade_fee_bps,
        liquidation_fee_bps,
        max_insurance_payout_per_liq_usdc: 1_000_000_000,
        fee_to_insurance_bps: 10_000,
        min_trade_base,
        max_price_impact_bps: 500,
        spread_bps: 10,
        reduce_only: false,
        paused: false,
        _pad1: [0u8, 0u8],
        open_interest_base: 0,
        net_position_base: 0,
        max_open_interest_base,
        max_skew_base,
    };
    Ok(())
}

/// When the signer is not the market's admin.
pub open spec fn market_admin_refusal(ctx: SetMarketFlags) -> Option<TariffError> {
    if ctx.market.admin != ctx.admin {
        Some(TariffError::Unauthorized)
    } else {
        None
    }
}

/// Switches reduce-only mode on or off.
pub fn set_reduce_only(ctx: &mut SetMarketFlags, reduce_only: bool) -> (res: Result<
    (),
    TariffError,
>)
    ensures
        error::outcome(res, market_admin_refusal(*old(ctx)), ()),
        *final(ctx) == (if res is Ok {
            SetMarketFlags {
                market: TariffPerpMarket { reduce_only, ..old(ctx).market },
                ..*old(ctx)
            }
        } else {
            *old(ctx)
        }),
{
    accounts::require_keys_eq(&ctx.market.admin, &ctx.admin, TariffError::Unauthorized)?;
    ctx.market.reduce_only = reduce_only;
    Ok(())
}

/// Pauses or resumes the market.
pub fn set_paused(ctx: &mut SetMarketFlags, paused: bool) -> (res: Result<(), TariffError>)
    ensures
        error::outcome(res, market_admin_refusal(*old(ctx)), ()),
        *final(ctx) == (if res is Ok {
            SetMarketFlags {
                market: TariffPerpMarket { paused, ..old(ctx).market },
                ..*old(ctx)
            }
        } else {
            *old(ctx)
        }),
{
    accounts::require_keys_eq(&ctx.market.admin, &ctx.admin, TariffError::Unauthorized)?;
    ctx.market.paused = paused;
    Ok(())
}

/// When the configuration cannot be set.
pub open spec fn set_market_config_refusal(
    ctx: SetMarketFlags,
    fee_to_insurance_bps: u16,
    funding_period_secs: i64,
    min_trade_base: i128,
    max_price_impact_bps: u16,
    spread_bps: u16,
) -> Option<TariffError> {
    if ctx.market.admin != ctx.admin {
        Some(TariffError::Unauthorized)
    } else if fee_to_insurance_bps > 10_000 {
        Some(TariffError::InvalidBps)
    } else if funding_period_secs <= 0 || min_trade_base <= 0 {
        Some(TariffError::InvalidConfig)
    } else if max_price_impact_bps > 10_000 || spread_bps > 10_000 {
        Some(TariffError::InvalidBps)
    } else {
        None
    }
}

/// Sets the insurance payout cap, the fee routing, the funding period, the minimum trade, the
/// price impact limit and the spread.
pub fn set_market_config(
    ctx: &mut SetMarketFlags,
    max_insurance_payout_per_liq_usdc: u64,
    fee_to_insurance_bps: u16,
    funding_period_secs: i64,
    min_trade_base: i128,
    max_price_impact_bps: u16,
    spread_bps: u16,
) -> (res: Result<(), TariffError>)
    ensures
        error::outcome(
            res,
            set_market_config_refusal(
                *old(ctx),
                fee_to_insurance_bps,
                funding_period_secs,
                min_trade_base,
                max_price_impact_bps,
                spread_bps,
            ),
            (),
        ),
        *final(ctx) == (if res is Ok {
            SetMarketFlags {
                market: TariffPerpMarket {
                    max_insurance_payout_per_liq_usdc,
                    fee_to_insurance_bps,
                    funding_period_secs,
                    min_trade_base,
                    max_price_impact_bps,
                    spread_bps,
                    ..old(ctx).market
                },
                ..*old(ctx)
            }
        } else {
            *old(ctx)
        }),
{
    accounts::require_keys_eq(&ctx.market.admin, &ctx.admin, TariffError::Unauthorized)?;
    if fee_to_insurance_bps > 10_000 {
        return Err(TariffError::InvalidBps);
    }
    if funding_period_secs <= 0 {
        return Err(TariffError::InvalidConfig);
    }
    if min_trade_base <= 0 {
        return Err(TariffError::InvalidConfig);
    }
    if max_price_impact_bps > 10_000 {
        return Err(TariffError::InvalidBps);
    }
    if spread_bps > 10_000 {
        return Err(TariffError::InvalidBps);
    }
    ctx.market.max_insurance_payout_per_liq_usdc = max_insurance_payout_per_liq_usdc;
    ctx.market.fee_to_insurance_bps = fee_to_insurance_bps;
    ctx.market.funding_period_secs = funding_period_secs;
    ctx.market.min_trade_base = min_trade_base;
    ctx.market.max_price_impact_bps = max_price_impact_bps;
    ctx.market.spread_bps = spread_bps;
    Ok(())
}

} // verus!
