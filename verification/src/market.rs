//! The perpetual market: its virtual reserves, its limits and its configuration.

use crate::accounts::Pubkey;
use crate::accounts::TransferAuthority;
use crate::error;
use crate::error::TariffError;
use crate::math;
use crate::math::BPS_DENOM_I128;
use crate::math::Q64;
use crate::oracle::TariffOracle;
use vstd::prelude::*;

verus! {

/// The perpetual market account.
#[derive(Clone, Copy, Debug, PartialEq, Eq)]
pub struct TariffPerpMarket {
    pub admin: Pubkey,
    pub oracle: Pubkey,
    pub usdc_mint: Pubkey,
    pub vault_authority_bump: u8,
    pub insurance_authority_bump: u8,
    pub _pad0: [u8; 6],
    pub vault_usdc: Pubkey,
    pub insurance_vault_usdc: Pubkey,
    pub pyth_sol_usd_feed: Pubkey,
    pub last_pyth_publish_time: i64,
    /// Virtual base reserve, in micro-base.
    pub base_reserve: i128,
    /// Virtual quote reserve.
    pub quote_reserve: i128,
    /// The product that the virtual reserves keep, up to rounding.
    pub invariant_k: i128,
    /// Funding per base unit since the market began, in Q64.64.
    pub funding_index: i128,
    pub last_funding_ts: i64,
    pub funding_period_secs: i64,
    pub initial_margin_bps: u16,
    pub maintenance_margin_bps: u16,
    pub trade_fee_bps: u16,
    pub liquidation_fee_bps: u16,
    pub max_insurance_payout_per_liq_usdc: u64,
    pub fee_to_insurance_bps: u16,
    pub min_trade_base: i128,
    pub max_price_impact_bps: u16,
    pub spread_bps: u16,
    pub reduce_only: bool,
    pub paused: bool,
    pub _pad1: [u8; 2],
    /// Sum of the sizes of all positions.
    pub open_interest_base: i128,
    /// Sum of all positions, long ones positive.
    pub net_position_base: i128,
    pub max_open_interest_base: i128,
    pub max_skew_base: i128,
}

/// What a swap against the virtual reserves gives.
#[derive(Clone, Copy, Debug, PartialEq, Eq, Structural)]
pub struct Swap {
    /// Average price of the swap, in Q64.64.
    pub price_q64: i128,
    /// Change of the quote reserve.
    pub quote_delta: i128,
    pub new_base: i128,
    pub new_quote: i128,
}

impl TariffPerpMarket {
    /// Serialized size in bytes.
    pub const SPACE: usize = 32 + 32 + 32 + 1 + 1 + 6 + 32 + 32 + 32 + 8 + 16 + 16 + 16 + 16 + 8 + 8
        + 2 + 2 + 2 + 2 + 8 + 2 + 16 + 2 + 2 + 1 + 1 + 2 + 16 + 16 + 16 + 16;

    /// The mark price of the reserves.
    pub open spec fn mark(self) -> int {
        math::mark_price(self.base_reserve as int, self.quote_reserve as int)
    }

    /// When the reserves have no mark price.
    pub open spec fn mark_refusal(self) -> Option<TariffError> {
        math::mark_price_refusal(self.base_reserve as int, self.quote_reserve as int)
    }

    /// The base reserve after `delta` micro-base were bought.
    pub open spec fn swap_base(self, delta: int) -> int {
        self.base_reserve - delta
    }

    /// The quote reserve after `delta` micro-base were bought: the product over the new base
    /// reserve, rounded down.
    pub open spec fn swap_quote(self, delta: int) -> int {
        self.invariant_k as int / self.swap_base(delta)
    }

    /// The average price of buying `delta` micro-base, rounded down.
    pub open spec fn swap_price(self, delta: int) -> int {
        math::magnitude(self.swap_quote(delta) - self.quote_reserve) * Q64 / math::magnitude(delta)
    }

    /// When `delta` micro-base cannot be bought. A negative `delta` sells.
    pub open spec fn swap_refusal(self, delta: int) -> Option<TariffError> {
        if delta == 0 {
            Some(TariffError::InvalidAmount)
        } else if self.base_reserve <= 0 || self.quote_reserve <= 0 || self.invariant_k <= 0 {
            Some(TariffError::InvalidReserve)
        } else if delta > 0 {
            if delta >= self.base_reserve {
                Some(TariffError::InsufficientLiquidity)
            } else {
                error::overflow_unless(
                    self.swap_quote(delta) > self.quote_reserve && math::in_i128(
                        (self.swap_quote(delta) - self.quote_reserve) * Q64,
                    ),
                )
            }
        } else if !math::in_i128(-delta) || !math::in_i128(self.swap_base(delta)) {
            Some(TariffError::MathOverflow)
        } else if self.swap_quote(delta) >= self.quote_reserve {
            Some(TariffError::InsufficientLiquidity)
        } else {
            error::overflow_unless(
                math::in_i128((self.quote_reserve - self.swap_quote(delta)) * Q64),
            )
        }
    }

    /// The market with the reserves that buying `delta` micro-base leaves.
    pub open spec fn after_swap(self, delta: int) -> Self {
        TariffPerpMarket {
            base_reserve: self.swap_base(delta) as i128,
            quote_reserve: self.swap_quote(delta) as i128,
            ..self
        }
    }

    /// The open interest after a position went from `old_pos` to `new_pos`.
    pub open spec fn open_interest_after(self, old_pos: int, new_pos: int) -> int {
        self.open_interest_base + math::magnitude(new_pos) - math::magnitude(old_pos)
    }

    /// The net position after a position went from `old_pos` to `new_pos`.
    pub open spec fn net_position_after(self, old_pos: int, new_pos: int) -> int {
        self.net_position_base + new_pos - old_pos
    }

    /// When the market's limits do not admit that a position goes from `old_pos` to `new_pos`.
    pub open spec fn risk_refusal(self, old_pos: int, new_pos: int) -> Option<TariffError> {
        let interest = self.open_interest_after(old_pos, new_pos);
        let net = self.net_position_after(old_pos, new_pos);
        if old_pos == i128::MIN || new_pos == i128::MIN {
            Some(TariffError::MathOverflow)
        } else if interest < 0 || !math::in_i128(interest) {
            Some(TariffError::MathOverflow)
        } else if interest > self.max_open_interest_base {
            Some(TariffError::RiskLimit)
        } else if !math::in_i128(new_pos - old_pos) || !math::in_i128(net) || net == i128::MIN {
            Some(TariffError::MathOverflow)
        } else if math::magnitude(net) > self.max_skew_base {
            Some(TariffError::RiskLimit)
        } else {
            None
        }
    }

    /// When a change from `old_pos` to `new_pos` cannot be recorded. It differs from
    /// `risk_refusal` only in which of two reasons is given where both hold.
    pub open spec fn record_refusal(self, old_pos: int, new_pos: int) -> Option<TariffError> {
        let interest = self.open_interest_after(old_pos, new_pos);
        let net = self.net_position_after(old_pos, new_pos);
        if old_pos == i128::MIN || new_pos == i128::MIN {
            Some(TariffError::MathOverflow)
        } else if interest < 0 || !math::in_i128(interest) {
            Some(TariffError::MathOverflow)
        } else if !math::in_i128(new_pos - old_pos) || !math::in_i128(net) {
            Some(TariffError::MathOverflow)
        } else if interest > self.max_open_interest_base {
            Some(TariffError::RiskLimit)
        } else if net == i128::MIN {
            Some(TariffError::MathOverflow)
        } else if math::magnitude(net) > self.max_skew_base {
            Some(TariffError::RiskLimit)
        } else {
            None
        }
    }

    /// The market with the change of a position from `old_pos` to `new_pos` recorded.
    pub open spec fn after_position_change(self, old_pos: int, new_pos: int) -> Self {
        TariffPerpMarket {
            open_interest_base: self.open_interest_after(old_pos, new_pos) as i128,
            net_position_base: self.net_position_after(old_pos, new_pos) as i128,
            ..self
        }
    }

    /// The bump of the derived address that the program signs for. A trader signs without one.
    pub fn signer_bump(&self, authority: TransferAuthority) -> (res: Option<u8>)
        ensures
            res == (match authority {
                TransferAuthority::Owner => None,
                TransferAuthority::Vault => Some(self.vault_authority_bump),
                TransferAuthority::Insurance => Some(self.insurance_authority_bump),
            }),
    {
        match authority {
            TransferAuthority::Owner => None,
            TransferAuthority::Vault => Some(self.vault_authority_bump),
            TransferAuthority::Insurance => Some(self.insurance_authority_bump),
        }
    }

    /// The mark price of the virtual reserves: quote per base.
    pub fn mark_price_q64(&self) -> (res: Result<i128, TariffError>)
        ensures
            error::amount_outcome(res, self.mark_refusal(), self.mark()),
    {
        math::mark_price_q64_from_reserves(self.base_reserve, self.quote_reserve)
    }

    /// The index price: the tariff index, with 10,000 basis points as one.
    pub fn index_price_q64(&self, oracle: &TariffOracle) -> (res: Result<i128, TariffError>)
        requires
            oracle.in_capacity(),
        ensures
            res is Ok,
            res->Ok_0 == math::bps_as_q64(oracle.index_bps()),
    {
        let bps: i128 = oracle.tariff_index_bps_i128()?;
        let num: i128 = bps.checked_mul(Q64).ok_or(TariffError::MathOverflow)?;
        num.checked_div(BPS_DENOM_I128).ok_or(TariffError::MathOverflow)
    }
}

/// Quotes a swap against the virtual reserves. A positive delta buys base, a negative one sells.
pub fn vamm_swap(market: &TariffPerpMarket, signed_delta_base: i128) -> (res: Result<
    Swap,
    TariffError,
>)
    ensures
        ({
            let delta = signed_delta_base as int;
            match market.swap_refusal(delta) {
                Some(e) => res == Err::<Swap, TariffError>(e),
                None => {
                    &&& res is Ok
                    &&& res->Ok_0.price_q64 == market.swap_price(delta)
                    &&& res->Ok_0.quote_delta == market.swap_quote(delta) - market.quote_reserve
                    &&& res->Ok_0.new_base == market.swap_base(delta)
                    &&& res->Ok_0.new_quote == market.swap_quote(delta)
                },
            }
        }),
{
    if signed_delta_base == 0 {
        return Err(TariffError::InvalidAmount);
    }
    let base: i128 = market.base_reserve;
    let quote: i128 = market.quote_reserve;
    let k: i128 = market.invariant_k;
    if !(base > 0 && quote > 0 && k > 0) {
        return Err(TariffError::InvalidReserve);
    }
    if signed_delta_base > 0 {
        let delta: i128 = signed_delta_base;
        if delta >= base {
            return Err(TariffError::InsufficientLiquidity);
        }
        let new_base: i128 = base.checked_sub(delta).ok_or(TariffError::MathOverflow)?;
        proof {
            math::lemma_quotient_range(k as int, new_base as int);
        }
        let new_quote: i128 = k.checked_div(new_base).ok_or(TariffError::MathOverflow)?;
        if new_quote <= quote {
            return Err(TariffError::MathOverflow);
        }
        let quote_in: i128 = new_quote.checked_sub(quote).ok_or(TariffError::MathOverflow)?;
        let scaled: i128 = quote_in.checked_mul(Q64).ok_or(TariffError::MathOverflow)?;
        proof {
            math::lemma_quotient_range(scaled as int, delta as int);
        }
        let price_q64: i128 = scaled.checked_div(delta).ok_or(TariffError::MathOverflow)?;
        Ok(Swap { price_q64, quote_delta: quote_in, new_base, new_quote })
    } else {
        let delta_abs: i128 = math::i128_neg(signed_delta_base)?;
        let new_base: i128 = base.checked_add(delta_abs).ok_or(TariffError::MathOverflow)?;
        proof {
            math::lemma_quotient_range(k as int, new_base as int);
        }
        let new_quote: i128 = k.checked_div(new_base).ok_or(TariffError::MathOverflow)?;
        if new_quote >= quote {
            return Err(TariffError::InsufficientLiquidity);
        }
        let quote_out: i128 = quote.checked_sub(new_quote).ok_or(TariffError::MathOverflow)?;
        let scaled: i128 = quote_out.checked_mul(Q64).ok_or(TariffError::MathOverflow)?;
        proof {
            math::lemma_quotient_range(scaled as int, delta_abs as int);
        }
        let price_q64: i128 = scaled.checked_div(delta_abs).ok_or(TariffError::MathOverflow)?;
        let quote_delta: i128 = math::i128_neg(quote_out)?;
        Ok(Swap { price_q64, quote_delta, new_base, new_quote })
    }
}

/// Checks that the market's limits admit a change of a position.
pub fn check_market_risk_after_change(
    market: &TariffPerpMarket,
    old_pos: i128,
    new_pos: i128,
) -> (res: Result<(), TariffError>)
    ensures
        error::outcome(res, market.risk_refusal(old_pos as int, new_pos as int), ()),
{
    let abs_old: i128 = math::i128_abs(old_pos)?;
    let abs_new: i128 = math::i128_abs(new_pos)?;
    let delta_oi: i128 = abs_new.checked_sub(abs_old).ok_or(TariffError::MathOverflow)?;
    let new_open_interest: i128 = market.open_interest_base.checked_add(delta_oi).ok_or(
        TariffError::MathOverflow,
    )?;
    if new_open_interest < 0 {
        return Err(TariffError::MathOverflow);
    }
    if new_open_interest > market.max_open_interest_base {
        return Err(TariffError::RiskLimit);
    }
    let delta_net: i128 = new_pos.checked_sub(old_pos).ok_or(TariffError::MathOverflow)?;
    let new_net: i128 = market.net_position_base.checked_add(delta_net).ok_or(
        TariffError::MathOverflow,
    )?;
    let abs_net: i128 = math::i128_abs(new_net)?;
    if abs_net > market.max_skew_base {
        return Err(TariffError::RiskLimit);
    }
    Ok(())
}

/// Records a change of a position in the market's open interest and net position.
pub fn apply_position_change_to_market(
    market: &mut TariffPerpMarket,
    old_pos: i128,
    new_pos: i128,
) -> (res: Result<(), TariffError>)
    ensures
        error::outcome(res, old(market).record_refusal(old_pos as int, new_pos as int), ()),
        *final(market) == (if res is Ok {
            old(market).after_position_change(old_pos as int, new_pos as int)
        } else {
            *old(market)
        }),
{
    let abs_old: i128 = math::i128_abs(old_pos)?;
    let abs_new: i128 = math::i128_abs(new_pos)?;
    let delta_oi: i128 = abs_new.checked_sub(abs_old).ok_or(TariffError::MathOverflow)?;
    let open_interest: i128 = market.open_interest_base.checked_add(delta_oi).ok_or(
        TariffError::MathOverflow,
    )?;
    let delta_net: i128 = new_pos.checked_sub(old_pos).ok_or(TariffError::MathOverflow)?;
    let net_position: i128 = market.net_position_base.checked_add(delta_net).ok_or(
        TariffError::MathOverflow,
    )?;
    if open_interest < 0 {
        return Err(TariffError::MathOverflow);
    }
    if open_interest > market.max_open_interest_base {
        return Err(TariffError::RiskLimit);
    }
    let abs_net: i128 = math::i128_abs(net_position)?;
    if abs_net > market.max_skew_base {
        return Err(TariffError::RiskLimit);
    }
    market.open_interest_base = open_interest;
    market.net_position_base = net_position;
    Ok(())
}

} // verus!
