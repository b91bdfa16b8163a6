//! Opening, changing and closing positions.

use crate::accounts;
use crate::accounts::Pubkey;
use crate::accounts::TokenAccount;
use crate::accounts::TokenSlot;
use crate::accounts::TokenTransfer;
use crate::accounts::TransferAuthority;
use crate::error;
use crate::error::TariffError;
use crate::events::TradeEvent;
use crate::margin;
use crate::margin::MarginAccount;
use crate::market;
use crate::market::Swap;
use crate::market::TariffPerpMarket;
use crate::math;
use crate::math::BPS_DENOM_I128;
use crate::math::BPS_DENOM_U64;
use crate::math::Q64;
use crate::oracle::TariffOracle;
use crate::pyth;
use crate::pyth::PriceFeed;
use crate::pyth::PythFeedAccount;
use vstd::prelude::*;

verus! {

/// The accounts of `open_position`.
#[derive(Clone, Debug, PartialEq, Eq)]
pub struct OpenPosition {
    pub owner: Pubkey,
    pub oracle_key: Pubkey,
    pub oracle: TariffOracle,
    pub market_key: Pubkey,
    pub market: TariffPerpMarket,
    pub margin: MarginAccount,
    pub pyth_feed: PythFeedAccount,
    pub vault_authority: Pubkey,
    pub insurance_authority: Pubkey,
    pub vault_usdc: TokenAccount,
    pub insurance_vault_usdc: TokenAccount,
}

/// The accounts of `close_position`.
#[derive(Clone, Debug, PartialEq, Eq)]
pub struct ClosePosition {
    pub owner: Pubkey,
    pub oracle_key: Pubkey,
    pub oracle: TariffOracle,
    pub market_key: Pubkey,
    pub market: TariffPerpMarket,
    pub margin: MarginAccount,
    pub pyth_feed: PythFeedAccount,
    pub vault_authority: Pubkey,
    pub insurance_authority: Pubkey,
    pub vault_usdc: TokenAccount,
    pub insurance_vault_usdc: TokenAccount,
}

/// What a trade reports, and the fee share to move to the insurance vault.
#[derive(Clone, Copy, Debug, PartialEq, Eq)]
pub struct TradeOutcome {
    pub event: TradeEvent,
    pub insurance_transfer: Option<TokenTransfer>,
}

/// The mark prices around a swap.
#[derive(Clone, Copy, Debug, PartialEq, Eq, Structural)]
pub struct TradeQuote {
    pub mark_before_q64: i128,
    pub mark_after_q64: i128,
    pub swap: Swap,
}

/// The terms on which a trade was filled.
#[derive(Clone, Copy, Debug, PartialEq, Eq, Structural)]
pub struct TradeFill {
    pub exec_price_q64: i128,
    pub fee_usdc: u64,
    pub insurance_fee_usdc: u64,
}

/// When the margin account is not the signer's, or the accounts do not belong together.
pub open spec fn trader_refusal(
    owner: Pubkey,
    oracle_key: Pubkey,
    market: TariffPerpMarket,
    market_key: Pubkey,
    margin: MarginAccount,
) -> Option<TariffError> {
    if market.oracle != oracle_key {
        Some(TariffError::InvalidOracle)
    } else if margin.owner != owner {
        Some(TariffError::Unauthorized)
    } else if margin.market != market_key {
        Some(TariffError::InvalidMarket)
    } else {
        None
    }
}

/// Checks that the accounts belong together and the margin account is the signer's.
pub fn require_trader(
    owner: &Pubkey,
    oracle_key: &Pubkey,
    market: &TariffPerpMarket,
    market_key: &Pubkey,
    margin: &MarginAccount,
) -> (res: Result<(), TariffError>)
    ensures
        error::outcome(
            res,
            trader_refusal(*owner, *oracle_key, *market, *market_key, *margin),
            (),
        ),
{
    accounts::require_keys_eq(&market.oracle, oracle_key, TariffError::InvalidOracle)?;
    accounts::require_keys_eq(&margin.owner, owner, TariffError::Unauthorized)?;
    accounts::require_keys_eq(&margin.market, market_key, TariffError::InvalidMarket)
}

/// The change of the position that a trade of `base_amount` on `side` makes.
pub open spec fn signed_base(side: u8, base_amount: int) -> int {
    if side == 0 {
        base_amount
    } else {
        -base_amount
    }
}

/// The side of a trade that changes the position by `delta`.
pub open spec fn side_of(delta: int) -> u8 {
    if delta > 0 {
        0
    } else {
        1
    }
}

/// When a swap of `delta` or the mark price before or after it cannot be computed.
pub open spec fn quote_refusal(market: TariffPerpMarket, delta: int) -> Option<TariffError> {
    if market.mark_refusal() is Some {
        market.mark_refusal()
    } else if market.swap_refusal(delta) is Some {
        market.swap_refusal(delta)
    } else {
        market.after_swap(delta).mark_refusal()
    }
}

/// How far a swap of `delta` moves the mark price, in basis points of the price before it.
pub open spec fn impact_bps(market: TariffPerpMarket, delta: int) -> int {
    math::magnitude(market.after_swap(delta).mark() - market.mark()) * BPS_DENOM_I128
        / market.mark()
}

/// When a swap of `delta` moves the mark price too far.
pub open spec fn impact_refusal(market: TariffPerpMarket, delta: int) -> Option<TariffError> {
    let moved = math::magnitude(market.after_swap(delta).mark() - market.mark());
    if !math::in_i128(moved * BPS_DENOM_I128) || market.mark() == 0 {
        Some(TariffError::MathOverflow)
    } else if impact_bps(market, delta) > market.max_price_impact_bps {
        Some(TariffError::PriceImpactTooHigh)
    } else {
        None
    }
}

/// The price at which a trade of `delta` on `side` executes: the swap's, with the spread on it.
pub open spec fn trade_price(market: TariffPerpMarket, delta: int, side: u8) -> int {
    math::spread_price(market.swap_price(delta), market.spread_bps, side)
}

/// The fee of the trade: the fee rate on what is traded at the execution price.
pub open spec fn trade_fee(market: TariffPerpMarket, delta: int, side: u8) -> int {
    math::bps_of(
        math::usdc_value(math::magnitude(delta), trade_price(market, delta, side)),
        market.trade_fee_bps as int,
    )
}

/// The part of a fee that goes to the insurance vault, rounded down.
pub open spec fn insurance_share(market: TariffPerpMarket, fee: int) -> int {
    fee * market.fee_to_insurance_bps / (BPS_DENOM_U64 as int)
}

/// The market after a position went from `pos` to `pos + delta`.
pub open spec fn traded_market(market: TariffPerpMarket, pos: int, delta: int) -> TariffPerpMarket {
    market.after_swap(delta).after_position_change(pos, pos + delta)
}

/// The margin account after the trade, with the whole fee taken from its collateral.
pub open spec fn traded_margin(
    market: TariffPerpMarket,
    margin: MarginAccount,
    delta: int,
    side: u8,
) -> MarginAccount {
    let moved = margin.after_trade(trade_price(market, delta, side), delta);
    MarginAccount {
        collateral_usdc: (moved.collateral_usdc - trade_fee(market, delta, side)) as u64,
        ..moved
    }
}

/// When a trade that the market admits cannot be filled.
pub open spec fn fill_refusal(
    market: TariffPerpMarket,
    margin: MarginAccount,
    delta: int,
    side: u8,
) -> Option<TariffError> {
    let price = trade_price(market, delta, side);
    let fee = trade_fee(market, delta, side);
    let spread = math::spread_price_refusal(
        market.swap_price(delta),
        market.spread_bps,
        side,
    );
    if spread is Some {
        spread
    } else if !math::in_i128(math::magnitude(delta) * price) {
        Some(TariffError::MathOverflow)
    } else if margin.collateral_usdc < fee {
        Some(TariffError::InsufficientCollateral)
    } else if margin.trade_refusal(price, delta) is Some {
        margin.trade_refusal(price, delta)
    } else {
        error::overflow_unless(margin.after_trade(price, delta).collateral_usdc >= fee)
    }
}

/// When a trade is not allowed in reduce-only mode: it must make the position smaller and must
/// not turn it round.
pub open spec fn reduce_only_refusal(old_pos: int, new_pos: int) -> Option<TariffError> {
    if old_pos == 0 || (old_pos > 0 && new_pos < 0) || (old_pos < 0 && new_pos > 0) {
        Some(TariffError::ReduceOnly)
    } else if old_pos == i128::MIN || new_pos == i128::MIN {
        Some(TariffError::MathOverflow)
    } else if math::magnitude(new_pos) >= math::magnitude(old_pos) {
        Some(TariffError::ReduceOnly)
    } else {
        None
    }
}

/// The equity that a position needs to be opened or kept after a withdrawal.
pub open spec fn initial_requirement(market: TariffPerpMarket, margin: MarginAccount) -> int {
    math::bps_of(margin.notional(market), market.initial_margin_bps as int)
}

/// When the account does not meet the initial margin requirement.
pub open spec fn initial_margin_refusal(
    market: TariffPerpMarket,
    margin: MarginAccount,
) -> Option<TariffError> {
    if margin.equity_refusal(market) is Some {
        margin.equity_refusal(market)
    } else if margin.equity(market) < initial_requirement(market, margin) {
        Some(TariffError::MarginTooLow)
    } else {
        None
    }
}

/// The swap of `delta` and the mark prices around it.
pub fn quote_trade(market: &TariffPerpMarket, delta: i128) -> (res: Result<
    TradeQuote,
    TariffError,
>)
    ensures
        match quote_refusal(*market, delta as int) {
            Some(e) => res == Err::<TradeQuote, TariffError>(e),
            None => {
                &&& res is Ok
                &&& res->Ok_0.mark_before_q64 == market.mark()
                &&& res->Ok_0.mark_after_q64 == market.after_swap(delta as int).mark()
                &&& res->Ok_0.swap.price_q64 == market.swap_price(delta as int)
                &&& res->Ok_0.swap.quote_delta == market.swap_quote(delta as int)
                    - market.quote_reserve
                &&& res->Ok_0.swap.new_base == market.swap_base(delta as int)
                &&& res->Ok_0.swap.new_quote == market.swap_quote(delta as int)
            },
        },
{
    let mark_before_q64: i128 = market.mark_price_q64()?;
    let swap: Swap = market::vamm_swap(market, delta)?;
    let mark_after_q64: i128 = math::mark_price_q64_from_reserves(swap.new_base, swap.new_quote)?;
    Ok(TradeQuote { mark_before_q64, mark_after_q64, swap })
}

/// Checks that a swap does not move the mark price too far.
fn check_price_impact(market: &TariffPerpMarket, quote: &TradeQuote, delta: i128) -> (res:
    Result<(), TariffError>)
    requires
        quote_refusal(*market, delta as int) is None,
        quote.mark_before_q64 == market.mark(),
        quote.mark_after_q64 == market.after_swap(delta as int).mark(),
    ensures
        error::outcome(res, impact_refusal(*market, delta as int), ()),
{
    proof {
        lemma_marks_nonnegative(*market, delta as int);
    }
    let diff: i128 = quote.mark_after_q64.checked_sub(quote.mark_before_q64).ok_or(
        TariffError::MathOverflow,
    )?;
    let diff_abs: i128 = math::i128_abs(diff)?;
    let scaled: i128 = diff_abs.checked_mul(BPS_DENOM_I128).ok_or(TariffError::MathOverflow)?;
    proof {
        if quote.mark_before_q64 > 0 {
            math::lemma_quotient_range(scaled as int, quote.mark_before_q64 as int);
        }
    }
    let impact: i128 = scaled.checked_div(quote.mark_before_q64).ok_or(TariffError::MathOverflow)?;
    if impact > market.max_price_impact_bps as i128 {
        return Err(TariffError::PriceImpactTooHigh);
    }
    Ok(())
}

/// Fills a trade: charges the fee, moves the reserves and the position, and records the change.
fn fill_trade(
    market: &mut TariffPerpMarket,
    margin: &mut MarginAccount,
    quote: &TradeQuote,
    delta: i128,
    side: u8,
) -> (res: Result<TradeFill, TariffError>)
    requires
        quote_refusal(*old(market), delta as int) is None,
        quote.swap.price_q64 == old(market).swap_price(delta as int),
        quote.swap.new_base == old(market).swap_base(delta as int),
        quote.swap.new_quote == old(market).swap_quote(delta as int),
        math::in_i128(old(margin).position_base + delta),
        old(market).risk_refusal(
            old(margin).position_base as int,
            old(margin).position_base + delta,
        ) is None,
    ensures
        match fill_refusal(*old(market), *old(margin), delta as int, side) {
            Some(e) => {
                &&& res == Err::<TradeFill, TariffError>(e)
                &&& *final(market) == *old(market)
                &&& *final(margin) == *old(margin)
            },
            None => {
                let fee = trade_fee(*old(market), delta as int, side);
                &&& res is Ok
                &&& res->Ok_0.exec_price_q64 == trade_price(*old(market), delta as int, side)
                &&& res->Ok_0.fee_usdc == fee
                &&& res->Ok_0.insurance_fee_usdc == insurance_share(*old(market), fee)
                &&& *final(market) == traded_market(
                    *old(market),
                    old(margin).position_base as int,
                    delta as int,
                )
                &&& *final(margin) == traded_margin(
                    *old(market),
                    *old(margin),
                    delta as int,
                    side,
                )
            },
        },
{
    let exec_price_q64: i128 = math::apply_spread_q64(
        quote.swap.price_q64,
        market.spread_bps,
        side,
    )?;
    let base_abs: i128 = math::i128_abs(delta)?;
    let notional: i128 = math::base_times_price_to_usdc_micro(base_abs, exec_price_q64)?;
    proof {
        lemma_trade_price_nonnegative(*market, delta as int, side);
        math::lemma_usdc_value_range(base_abs as int, exec_price_q64 as int);
        math::lemma_usdc_value_nonnegative(base_abs as int, exec_price_q64 as int);
        math::lemma_fee_range(notional as int, market.trade_fee_bps);
    }
    let notional_abs: i128 = math::i128_abs(notional)?;
    let fee: i128 = math::amount_bps(notional_abs, market.trade_fee_bps)?;
    let fee_usdc: u64 = math::i128_to_u64(fee)?;
    if margin.collateral_usdc < fee_usdc {
        return Err(TariffError::InsufficientCollateral);
    }
    let old_pos: i128 = margin.position_base;
    let new_pos: i128 = old_pos.checked_add(delta).ok_or(TariffError::MathOverflow)?;
    let mut traded: TariffPerpMarket = *market;
    let mut moved: MarginAccount = *margin;
    traded.base_reserve = quote.swap.new_base;
    traded.quote_reserve = quote.swap.new_quote;
    margin::update_position_and_entry(&mut moved, exec_price_q64, delta)?;
    market::apply_position_change_to_market(&mut traded, old_pos, new_pos)?;
    proof {
        math::lemma_share_range(fee_usdc, market.fee_to_insurance_bps);
    }
    let insurance_scaled: u64 = fee_usdc.checked_mul(market.fee_to_insurance_bps as u64).ok_or(
        TariffError::MathOverflow,
    )?;
    let insurance_fee_usdc: u64 = insurance_scaled.checked_div(BPS_DENOM_U64).ok_or(
        TariffError::MathOverflow,
    )?;
    moved.collateral_usdc =
    moved.collateral_usdc.checked_sub(fee_usdc).ok_or(TariffError::MathOverflow)?;
    *market = traded;
    *margin = moved;
    Ok(TradeFill { exec_price_q64, fee_usdc, insurance_fee_usdc })
}

/// Checks the initial margin requirement.
pub fn require_initial_margin(market: &TariffPerpMarket, margin: &MarginAccount) -> (res: Result<
    (),
    TariffError,
>)
    ensures
        error::outcome(res, initial_margin_refusal(*market, *margin), ()),
{
    let (equity, notional): (i128, i128) = margin::compute_equity_and_notional_usdc(
        market,
        margin,
    )?;
    proof {
        math::lemma_usdc_value_range(
            math::magnitude(margin.position_base as int),
            market.mark(),
        );
        math::lemma_bps_of_fits(notional as int, market.initial_margin_bps);
    }
    let required: i128 = math::amount_bps(notional, market.initial_margin_bps)?;
    if equity < required {
        return Err(TariffError::MarginTooLow);
    }
    Ok(())
}

/// The mark prices around a swap that can be quoted are not negative.
pub proof fn lemma_marks_nonnegative(market: TariffPerpMarket, delta: int)
    requires
        math::in_i128(delta),
        quote_refusal(market, delta) is None,
    ensures
        0 <= market.mark() <= i128::MAX,
        0 <= market.after_swap(delta).mark() <= i128::MAX,
{
    let after = market.after_swap(delta);
    math::lemma_quotient_range(
        market.invariant_k as int,
        market.swap_base(delta),
    );
    math::lemma_quotient_range(market.quote_reserve * Q64, market.base_reserve as int);
    math::lemma_quotient_range(after.quote_reserve * Q64, after.base_reserve as int);
}

/// The execution price of a swap that can be quoted is not negative.
pub proof fn lemma_trade_price_nonnegative(market: TariffPerpMarket, delta: int, side: u8)
    requires
        math::in_i128(delta),
        market.swap_refusal(delta) is None,
        market.spread_bps <= 10_000,
    ensures
        market.swap_price(delta) >= 0,
        trade_price(market, delta, side) >= 0,
{
    let moved = math::magnitude(market.swap_quote(delta) - market.quote_reserve);
    math::lemma_quotient_range(moved * Q64, math::magnitude(delta));
    let price = market.swap_price(delta);
    let factor = math::spread_factor_bps(market.spread_bps, side);
    assert(price * factor >= 0) by (nonlinear_arith)
        requires
            price >= 0,
            factor >= 0,
    ;
}

/// When a position cannot be opened or changed.
pub open spec fn open_position_refusal(
    ctx: OpenPosition,
    feed: Option<PriceFeed>,
    side: u8,
    base_amount: i128,
    now: i64,
) -> Option<TariffError> {
    let trader = trader_refusal(
        ctx.owner,
        ctx.oracle_key,
        ctx.market,
        ctx.market_key,
        ctx.margin,
    );
    let gate = pyth::gate_refusal(ctx.market, ctx.oracle, ctx.pyth_feed.key, feed, now);
    let vaults = accounts::vaults_refusal(
        ctx.vault_usdc,
        ctx.vault_authority,
        ctx.insurance_vault_usdc,
        ctx.insurance_authority,
        ctx.market.usdc_mint,
    );
    let market = pyth::after_feed(ctx.market, feed);
    let margin = ctx.margin.after_funding(market);
    let delta = signed_base(side, base_amount as int);
    let old_pos = margin.position_base as int;
    let new_pos = old_pos + delta;
    if trader is Some {
        trader
    } else if side != 0 && side != 1 {
        Some(TariffError::InvalidSide)
    } else if base_amount <= 0 {
        Some(TariffError::InvalidAmount)
    } else if ctx.market.paused {
        Some(TariffError::Paused)
    } else if gate is Some {
        gate
    } else if vaults is Some {
        vaults
    } else if ctx.margin.funding_refusal(market) is Some {
        ctx.margin.funding_refusal(market)
    } else if base_amount < market.min_trade_base {
        Some(TariffError::TradeTooSmall)
    } else if !math::in_i128(new_pos) {
        Some(TariffError::MathOverflow)
    } else if market.reduce_only && reduce_only_refusal(old_pos, new_pos) is Some {
        reduce_only_refusal(old_pos, new_pos)
    } else if market.risk_refusal(old_pos, new_pos) is Some {
        market.risk_refusal(old_pos, new_pos)
    } else if quote_refusal(market, delta) is Some {
        quote_refusal(market, delta)
    } else if impact_refusal(market, delta) is Some {
        impact_refusal(market, delta)
    } else if fill_refusal(market, margin, delta, side) is Some {
        fill_refusal(market, margin, delta, side)
    } else {
        initial_margin_refusal(
            traded_market(market, old_pos, delta),
            traded_margin(market, margin, delta, side),
        )
    }
}

/// The accounts after the position was opened or changed.
pub open spec fn opened(
    ctx: OpenPosition,
    feed: Option<PriceFeed>,
    side: u8,
    base_amount: i128,
) -> OpenPosition {
    let market = pyth::after_feed(ctx.market, feed);
    let margin = ctx.margin.after_funding(market);
    let delta = signed_base(side, base_amount as int);
    OpenPosition {
        market: traded_market(market, margin.position_base as int, delta),
        margin: traded_margin(market, margin, delta, side),
        ..ctx
    }
}

/// What a trade of `delta` on `side` reports, and what it moves to the insurance vault.
pub open spec fn trade_outcome(
    market_key: Pubkey,
    owner: Pubkey,
    market: TariffPerpMarket,
    delta: int,
    side: u8,
    now: i64,
) -> TradeOutcome {
    let fee = trade_fee(market, delta, side);
    TradeOutcome {
        event: TradeEvent {
            market: market_key,
            user: owner,
            side,
            base_delta: delta as i128,
            exec_price_q64: trade_price(market, delta, side) as i128,
            fee_usdc: fee as u64,
            mark_before_q64: market.mark() as i128,
            mark_after_q64: market.after_swap(delta).mark() as i128,
            ts: now,
        },
        insurance_transfer: accounts::transfer_of(
            TokenSlot::Vault,
            TokenSlot::InsuranceVault,
            TransferAuthority::Vault,
            insurance_share(market, fee) as u64,
        ),
    }
}

/// Opens, increases or decreases a position with a swap against the virtual reserves, given what
/// the price feed account holds.
pub fn open_position_with_feed(
    ctx: &mut OpenPosition,
    feed: &Option<PriceFeed>,
    side: u8,
    base_amount: i128,
    now: i64,
) -> (res: Result<TradeOutcome, TariffError>)
    ensures
        error::outcome(
            res,
            open_position_refusal(*old(ctx), *feed, side, base_amount, now),
            trade_outcome(
                old(ctx).market_key,
                old(ctx).owner,
                pyth::after_feed(old(ctx).market, *feed),
                signed_base(side, base_amount as int),
                side,
                now,
            ),
        ),
        *final(ctx) == (if res is Ok {
            opened(*old(ctx), *feed, side, base_amount)
        } else {
            *old(ctx)
        }),
{
    require_trader(&ctx.owner, &ctx.oracle_key, &ctx.market, &ctx.market_key, &ctx.margin)?;
    if !(side == 0 || side == 1) {
        return Err(TariffError::InvalidSide);
    }
    if base_amount <= 0 {
        return Err(TariffError::InvalidAmount);
    }
    if ctx.market.paused {
        return Err(TariffError::Paused);
    }
    let mut market: TariffPerpMarket = ctx.market;
    let mut margin: MarginAccount = ctx.margin;
    pyth::pass_gate(&mut market, &ctx.oracle, &ctx.pyth_feed.key, feed, now)?;
    accounts::require_vaults(
        &ctx.vault_usdc,
        &ctx.vault_authority,
        &ctx.insurance_vault_usdc,
        &ctx.insurance_authority,
        &market.usdc_mint,
    )?;
    margin::settle_funding(&market, &mut margin)?;
    if base_amount < market.min_trade_base {
        return Err(TariffError::TradeTooSmall);
    }
    let delta: i128 = if side == 0 {
        base_amount
    } else {
        math::i128_neg(base_amount)?
    };
    let old_pos: i128 = margin.position_base;
    let new_pos: i128 = old_pos.checked_add(delta).ok_or(TariffError::MathOverflow)?;
    if market.reduce_only {
        check_reduce_only(old_pos, new_pos)?;
    }
    market::check_market_risk_after_change(&market, old_pos, new_pos)?;
    let quote: TradeQuote = quote_trade(&market, delta)?;
    check_price_impact(&market, &quote, delta)?;
    let fill: TradeFill = fill_trade(&mut market, &mut margin, &quote, delta, side)?;
    require_initial_margin(&market, &margin)?;
    ctx.market = market;
    ctx.margin = margin;
    Ok(
        TradeOutcome {
            event: TradeEvent {
                market: ctx.market_key,
                user: ctx.owner,
                side,
                base_delta: delta,
                exec_price_q64: fill.exec_price_q64,
                fee_usdc: fill.fee_usdc,
                mark_before_q64: quote.mark_before_q64,
                mark_after_q64: quote.mark_after_q64,
                ts: now,
            },
            insurance_transfer: accounts::nonzero_transfer(
                TokenSlot::Vault,
                TokenSlot::InsuranceVault,
                TransferAuthority::Vault,
                fill.insurance_fee_usdc,
            ),
        },
    )
}

/// Opens, increases or decreases a position with a swap against the virtual reserves.
pub fn open_position(ctx: &mut OpenPosition, side: u8, base_amount: i128, now: i64) -> (res: Result<
    TradeOutcome,
    TariffError,
>)
    ensures
        ({
            let feed = pyth::loaded_price_feed(
                old(ctx).pyth_feed.key.bytes@,
                old(ctx).pyth_feed.data@,
            );
            &&& error::outcome(
                res,
                open_position_refusal(*old(ctx), feed, side, base_amount, now),
                trade_outcome(
                    old(ctx).market_key,
                    old(ctx).owner,
                    pyth::after_feed(old(ctx).market, feed),
                    signed_base(side, base_amount as int),
                    side,
                    now,
                ),
            )
            &&& *final(ctx) == (if res is Ok {
                opened(*old(ctx), feed, side, base_amount)
            } else {
                *old(ctx)
            })
        }),
{
    let feed: Option<PriceFeed> = pyth::load_pyth_feed(&ctx.pyth_feed);
    open_position_with_feed(ctx, &feed, side, base_amount, now)
}

/// Checks that a trade only reduces the position.
pub fn check_reduce_only(old_pos: i128, new_pos: i128) -> (res: Result<(), TariffError>)
    ensures
        error::outcome(res, reduce_only_refusal(old_pos as int, new_pos as int), ()),
{
    if old_pos == 0 {
        return Err(TariffError::ReduceOnly);
    }
    if !(new_pos == 0 || math::same_sign_nonzero(old_pos, new_pos)) {
        return Err(TariffError::ReduceOnly);
    }
    let new_abs: i128 = math::i128_abs(new_pos)?;
    let old_abs: i128 = math::i128_abs(old_pos)?;
    if new_abs >= old_abs {
        return Err(TariffError::ReduceOnly);
    }
    Ok(())
}

/// When a position cannot be closed. Neither a pause nor reduce-only mode is a reason.
pub open spec fn close_position_refusal(
    ctx: ClosePosition,
    feed: Option<PriceFeed>,
    now: i64,
) -> Option<TariffError> {
    let trader = trader_refusal(
        ctx.owner,
        ctx.oracle_key,
        ctx.market,
        ctx.market_key,
        ctx.margin,
    );
    let gate = pyth::gate_refusal(ctx.market, ctx.oracle, ctx.pyth_feed.key, feed, now);
    let vaults = accounts::vaults_refusal(
        ctx.vault_usdc,
        ctx.vault_authority,
        ctx.insurance_vault_usdc,
        ctx.insurance_authority,
        ctx.market.usdc_mint,
    );
    let market = pyth::after_feed(ctx.market, feed);
    let margin = ctx.margin.after_funding(market);
    let pos = margin.position_base as int;
    if trader is Some {
        trader
    } else if gate is Some {
        gate
    } else if vaults is Some {
        vaults
    } else if ctx.margin.funding_refusal(market) is Some {
        ctx.margin.funding_refusal(market)
    } else if pos == 0 {
        Some(TariffError::NoPosition)
    } else if market.risk_refusal(pos, 0) is Some {
        market.risk_refusal(pos, 0)
    } else if quote_refusal(market, -pos) is Some {
        quote_refusal(market, -pos)
    } else {
        fill_refusal(market, margin, -pos, side_of(-pos))
    }
}

/// The accounts after the position was closed.
pub open spec fn closed(ctx: ClosePosition, feed: Option<PriceFeed>) -> ClosePosition {
    let market = pyth::after_feed(ctx.market, feed);
    let margin = ctx.margin.after_funding(market);
    let pos = margin.position_base as int;
    ClosePosition {
        market: traded_market(market, pos, -pos),
        margin: traded_margin(market, margin, -pos, side_of(-pos)),
        ..ctx
    }
}

/// Closes the position with a swap against the virtual reserves, given what the price feed
/// account holds.
pub fn close_position_with_feed(
    ctx: &mut ClosePosition,
    feed: &Option<PriceFeed>,
    now: i64,
) -> (res: Result<TradeOutcome, TariffError>)
    ensures
        error::outcome(
            res,
            close_position_refusal(*old(ctx), *feed, now),
            trade_outcome(
                old(ctx).market_key,
                old(ctx).owner,
                pyth::after_feed(old(ctx).market, *feed),
                -old(ctx).margin.position_base,
                side_of(-old(ctx).margin.position_base),
                now,
            ),
        ),
        *final(ctx) == (if res is Ok {
            closed(*old(ctx), *feed)
        } else {
            *old(ctx)
        }),
        res is Ok ==> final(ctx).margin.position_base == 0 && final(ctx).margin.entry_price_q64 == 0
            && final(ctx).margin.open_notional_q64 == 0,
{
    require_trader(&ctx.owner, &ctx.oracle_key, &ctx.market, &ctx.market_key, &ctx.margin)?;
    let mut market: TariffPerpMarket = ctx.market;
    let mut margin: MarginAccount = ctx.margin;
    pyth::pass_gate(&mut market, &ctx.oracle, &ctx.pyth_feed.key, feed, now)?;
    accounts::require_vaults(
        &ctx.vault_usdc,
        &ctx.vault_authority,
        &ctx.insurance_vault_usdc,
        &ctx.insurance_authority,
        &market.usdc_mint,
    )?;
    margin::settle_funding(&market, &mut margin)?;
    let old_pos: i128 = margin.position_base;
    if old_pos == 0 {
        return Err(TariffError::NoPosition);
    }
    let delta: i128 = math::i128_neg(old_pos)?;
    market::check_market_risk_after_change(&market, old_pos, 0)?;
    let quote: TradeQuote = quote_trade(&market, delta)?;
    let side: u8 = if delta > 0 {
        0
    } else {
        1
    };
    let fill: TradeFill = fill_trade(&mut market, &mut margin, &quote, delta, side)?;
    ctx.market = market;
    ctx.margin = margin;
    Ok(
        TradeOutcome {
            event: TradeEvent {
                market: ctx.market_key,
                user: ctx.owner,
                side,
                base_delta: delta,
                exec_price_q64: fill.exec_price_q64,
                fee_usdc: fill.fee_usdc,
                mark_before_q64: quote.mark_before_q64,
                mark_after_q64: quote.mark_after_q64,
                ts: now,
            },
            insurance_transfer: accounts::nonzero_transfer(
                TokenSlot::Vault,
                TokenSlot::InsuranceVault,
                TransferAuthority::Vault,
                fill.insurance_fee_usdc,
            ),
        },
    )
}

/// Closes the position with a swap against the virtual reserves. Allowed when the market is
/// paused or in reduce-only mode.
pub fn close_position(ctx: &mut ClosePosition, now: i64) -> (res: Result<TradeOutcome, TariffError>)
    ensures
        ({
            let feed = pyth::loaded_price_feed(
                old(ctx).pyth_feed.key.bytes@,
                old(ctx).pyth_feed.data@,
            );
            &&& error::outcome(
                res,
                close_position_refusal(*old(ctx), feed, now),
                trade_outcome(
                    old(ctx).market_key,
                    old(ctx).owner,
                    pyth::after_feed(old(ctx).market, feed),
                    -old(ctx).margin.position_base,
                    side_of(-old(ctx).margin.position_base),
                    now,
                ),
            )
            &&& *final(ctx) == (if res is Ok {
                closed(*old(ctx), feed)
            } else {
                *old(ctx)
            })
        }),
        res is Ok ==> final(ctx).margin.position_base == 0 && final(ctx).margin.entry_price_q64 == 0
            && final(ctx).margin.open_notional_q64 == 0,
{
    let feed: Option<PriceFeed> = pyth::load_pyth_feed(&ctx.pyth_feed);
    close_position_with_feed(ctx, &feed, now)
}

} // verus!
