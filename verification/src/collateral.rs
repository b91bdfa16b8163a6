//! Margin accounts, deposits and withdrawals.

use crate::accounts;
use crate::accounts::Pubkey;
use crate::accounts::TokenAccount;
use crate::accounts::TokenSlot;
use crate::accounts::TokenTransfer;
use crate::accounts::TransferAuthority;
use crate::error;
use crate::error::TariffError;
use crate::events::DepositEvent;
use crate::events::WithdrawEvent;
use crate::margin;
use crate::margin::MarginAccount;
use crate::market::TariffPerpMarket;
use crate::math;
use crate::oracle::TariffOracle;
use crate::pyth;
use crate::pyth::PriceFeed;
use crate::pyth::PythFeedAccount;
use crate::trading;
use vstd::prelude::*;

verus! {

/// The accounts of `initialize_margin`.
#[derive(Clone, Copy, Debug, PartialEq, Eq)]
pub struct InitializeMargin {
    pub owner: Pubkey,
    pub market_key: Pubkey,
    pub market: TariffPerpMarket,
    pub margin: MarginAccount,
}

/// The accounts of `deposit_usdc`.
#[derive(Clone, Copy, Debug, PartialEq, Eq)]
pub struct DepositUsdc {
    pub owner: Pubkey,
    pub market_key: Pubkey,
    pub market: TariffPerpMarket,
    pub margin: MarginAccount,
    pub user_usdc: TokenAccount,
    pub vault_authority: Pubkey,
    pub vault_usdc: TokenAccount,
}

/// The accounts of `withdraw_usdc`.
#[derive(Clone, Debug, PartialEq, Eq)]
pub struct WithdrawUsdc {
    pub owner: Pubkey,
    pub oracle_key: Pubkey,
    pub oracle: TariffOracle,
    pub market_key: Pubkey,
    pub market: TariffPerpMarket,
    pub margin: MarginAccount,
    pub pyth_feed: PythFeedAccount,
    pub vault_authority: Pubkey,
    pub vault_usdc: TokenAccount,
    pub user_usdc: TokenAccount,
}

/// What a deposit reports, and the tokens to move.
#[derive(Clone, Copy, Debug, PartialEq, Eq)]
pub struct DepositOutcome {
    pub event: DepositEvent,
    pub transfer: TokenTransfer,
}

/// What a withdrawal reports, and the tokens to move.
#[derive(Clone, Copy, Debug, PartialEq, Eq)]
pub struct WithdrawOutcome {
    pub event: WithdrawEvent,
    pub transfer: TokenTransfer,
}

/// A margin account as it is created: empty, and with no funding outstanding.
pub open spec fn new_margin(
    owner: Pubkey,
    market_key: Pubkey,
    market: TariffPerpMarket,
) -> MarginAccount {
    MarginAccount {
        owner,
        market: market_key,
        collateral_usdc: 0,
        position_base: 0,
        entry_price_q64: 0,
        last_funding_index: market.funding_index,
        realized_pnl_usdc: 0,
        open_notional_q64: 0,
    }
}

/// Initializes a margin account.
pub fn initialize_margin(ctx: &mut InitializeMargin) -> (res: Result<(), TariffError>)
    ensures
        res == Ok::<(), TariffError>(()),
        *final(ctx) == (InitializeMargin {
            margin: new_margin(old(ctx).owner, old(ctx).market_key, old(ctx).market),
            ..*old(ctx)
        }),
{
    ctx.margin = MarginAccount {
        owner: ctx.owner,
        market: ctx.market_key,
        collateral_usdc: 0,
        position_base: 0,
        entry_price_q64: 0,
        last_funding_index: ctx.market.funding_index,
        realized_pnl_usdc: 0,
        open_notional_q64: 0,
    };
    Ok(())
}

/// When collateral cannot be deposited. A pause is not a reason.
pub open spec fn deposit_refusal(ctx: DepositUsdc, amount: u64) -> Option<TariffError> {
    let vault = accounts::vault_refusal(
        ctx.vault_usdc,
        ctx.market.usdc_mint,
        ctx.vault_authority,
    );
    if ctx.margin.owner != ctx.owner {
        Some(TariffError::Unauthorized)
    } else if ctx.margin.market != ctx.market_key {
        Some(TariffError::InvalidMarket)
    } else if amount == 0 {
        Some(TariffError::InvalidAmount)
    } else if ctx.user_usdc.mint != ctx.market.usdc_mint {
        Some(TariffError::InvalidMint)
    } else if vault is Some {
        vault
    } else {
        error::overflow_unless(ctx.margin.collateral_usdc + amount <= u64::MAX)
    }
}

/// Deposits collateral into the market's vault. Allowed when the market is paused.
pub fn deposit_usdc(ctx: &mut DepositUsdc, amount: u64, now: i64) -> (res: Result<
    DepositOutcome,
    TariffError,
>)
    ensures
        error::outcome(
            res,
            deposit_refusal(*old(ctx), amount),
            DepositOutcome {
                event: DepositEvent {
                    market: old(ctx).market_key,
                    user: old(ctx).owner,
                    amount_usdc: amount,
                    ts: now,
                },
                transfer: TokenTransfer {
                    from: TokenSlot::User,
                    to: TokenSlot::Vault,
                    authority: TransferAuthority::Owner,
                    amount,
                },
            },
        ),
        *final(ctx) == (if res is Ok {
            DepositUsdc {
                margin: MarginAccount {
                    collateral_usdc: (old(ctx).margin.collateral_usdc + amount) as u64,
                    ..old(ctx).margin
                },
                ..*old(ctx)
            }
        } else {
            *old(ctx)
        }),
{
    accounts::require_keys_eq(&ctx.margin.owner, &ctx.owner, TariffError::Unauthorized)?;
    accounts::require_keys_eq(&ctx.margin.market, &ctx.market_key, TariffError::InvalidMarket)?;
    if amount == 0 {
        return Err(TariffError::InvalidAmount);
    }
    accounts::require_keys_eq(
        &ctx.user_usdc.mint,
        &ctx.market.usdc_mint,
        TariffError::InvalidMint,
    )?;
    accounts::require_vault(&ctx.vault_usdc, &ctx.market.usdc_mint, &ctx.vault_authority)?;
    ctx.margin.collateral_usdc =
    ctx.margin.collateral_usdc.checked_add(amount).ok_or(TariffError::MathOverflow)?;
    Ok(
        DepositOutcome {
            event: DepositEvent {
                market: ctx.market_key,
                user: ctx.owner,
                amount_usdc: amount,
                ts: now,
            },
            transfer: TokenTransfer {
                from: TokenSlot::User,
                to: TokenSlot::Vault,
                authority: TransferAuthority::Owner,
                amount,
            },
        },
    )
}

/// When collateral cannot be withdrawn.
pub open spec fn withdraw_refusal(
    ctx: WithdrawUsdc,
    feed: Option<PriceFeed>,
    amount: u64,
    now: i64,
) -> Option<TariffError> {
    let trader = trading::trader_refusal(
        ctx.owner,
        ctx.oracle_key,
        ctx.market,
        ctx.market_key,
        ctx.margin,
    );
    let gate = pyth::gate_refusal(ctx.market, ctx.oracle, ctx.pyth_feed.key, feed, now);
    let vault = accounts::vault_refusal(
        ctx.vault_usdc,
        ctx.market.usdc_mint,
        ctx.vault_authority,
    );
    let market = pyth::after_feed(ctx.market, feed);
    let margin = ctx.margin.after_funding(market);
    if trader is Some {
        trader
    } else if amount == 0 {
        Some(TariffError::InvalidAmount)
    } else if ctx.market.paused {
        Some(TariffError::Paused)
    } else if gate is Some {
        gate
    } else if ctx.user_usdc.mint != ctx.market.usdc_mint {
        Some(TariffError::InvalidMint)
    } else if vault is Some {
        vault
    } else if ctx.margin.funding_refusal(market) is Some {
        ctx.margin.funding_refusal(market)
    } else if margin.collateral_usdc < amount {
        Some(TariffError::InsufficientCollateral)
    } else if margin.equity_refusal(market) is Some {
        margin.equity_refusal(market)
    } else if margin.equity(market) - amount < trading::initial_requirement(market, margin) {
        Some(TariffError::MarginTooLow)
    } else {
        None
    }
}

/// The accounts after funding was settled and `amount` was withdrawn.
pub open spec fn withdrawn(
    ctx: WithdrawUsdc,
    feed: Option<PriceFeed>,
    amount: u64,
) -> WithdrawUsdc {
    let market = pyth::after_feed(ctx.market, feed);
    let margin = ctx.margin.after_funding(market);
    WithdrawUsdc {
        market,
        margin: MarginAccount {
            collateral_usdc: (margin.collateral_usdc - amount) as u64,
            ..margin
        },
        ..ctx
    }
}

/// What a withdrawal reports, and what it moves.
pub open spec fn withdraw_outcome(ctx: WithdrawUsdc, amount: u64, now: i64) -> WithdrawOutcome {
    WithdrawOutcome {
        event: WithdrawEvent {
            market: ctx.market_key,
            user: ctx.owner,
            amount_usdc: amount,
            ts: now,
        },
        transfer: TokenTransfer {
            from: TokenSlot::Vault,
            to: TokenSlot::User,
            authority: TransferAuthority::Vault,
            amount,
        },
    }
}

/// Withdraws collateral from the market's vault, given what the price feed account holds.
pub fn withdraw_usdc_with_feed(
    ctx: &mut WithdrawUsdc,
    feed: &Option<PriceFeed>,
    amount: u64,
    now: i64,
) -> (res: Result<WithdrawOutcome, TariffError>)
    ensures
        error::outcome(
            res,
            withdraw_refusal(*old(ctx), *feed, amount, now),
            withdraw_outcome(*old(ctx), amount, now),
        ),
        *final(ctx) == (if res is Ok {
            withdrawn(*old(ctx), *feed, amount)
        } else {
            *old(ctx)
        }),
{
    trading::require_trader(
        &ctx.owner,
        &ctx.oracle_key,
        &ctx.market,
        &ctx.market_key,
        &ctx.margin,
    )?;
    if amount == 0 {
        return Err(TariffError::InvalidAmount);
    }
    if ctx.market.paused {
        return Err(TariffError::Paused);
    }
    let mut market: TariffPerpMarket = ctx.market;
    let mut margin: MarginAccount = ctx.margin;
    pyth::pass_gate(&mut market, &ctx.oracle, &ctx.pyth_feed.key, feed, now)?;
    accounts::require_keys_eq(&ctx.user_usdc.mint, &market.usdc_mint, TariffError::InvalidMint)?;
    accounts::require_vault(&ctx.vault_usdc, &market.usdc_mint, &ctx.vault_authority)?;
    margin::settle_funding(&market, &mut margin)?;
    if margin.collateral_usdc < amount {
        return Err(TariffError::InsufficientCollateral);
    }
    let (equity, notional): (i128, i128) = margin::compute_equity_and_notional_usdc(
        &market,
        &margin,
    )?;
    proof {
        if margin.position_base != 0 {
            math::lemma_usdc_value_range(
                margin.position_base as int,
                market.mark() - margin.entry_price_q64,
            );
        }
        math::lemma_usdc_value_range(
            math::magnitude(margin.position_base as int),
            market.mark(),
        );
        math::lemma_bps_of_fits(notional as int, market.initial_margin_bps);
    }
    let equity_after: i128 = equity.checked_sub(amount as i128).ok_or(TariffError::MathOverflow)?;
    let required: i128 = math::amount_bps(notional, market.initial_margin_bps)?;
    if equity_after < required {
        return Err(TariffError::MarginTooLow);
    }
    margin.collateral_usdc = margin.collateral_usdc - amount;
    ctx.market = market;
    ctx.margin = margin;
    Ok(
        WithdrawOutcome {
            event: WithdrawEvent {
                market: ctx.market_key,
                user: ctx.owner,
                amount_usdc: amount,
                ts: now,
            },
            transfer: TokenTransfer {
                from: TokenSlot::Vault,
                to: TokenSlot::User,
                authority: TransferAuthority::Vault,
                amount,
            },
        },
    )
}

/// Withdraws collateral from the market's vault.
pub fn withdraw_usdc(ctx: &mut WithdrawUsdc, amount: u64, now: i64) -> (res: Result<
    WithdrawOutcome,
    TariffError,
>)
    ensures
        ({
            let feed = pyth::loaded_price_feed(
                old(ctx).pyth_feed.key.bytes@,
                old(ctx).pyth_feed.data@,
            );
            &&& error::outcome(
                res,
                withdraw_refusal(*old(ctx), feed, amount, now),
                withdraw_outcome(*old(ctx), amount, now),
            )
            &&& *final(ctx) == (if res is Ok {
                withdrawn(*old(ctx), feed, amount)
            } else {
                *old(ctx)
            })
        }),
{
    let feed: Option<PriceFeed> = pyth::load_pyth_feed(&ctx.pyth_feed);
    withdraw_usdc_with_feed(ctx, &feed, amount, now)
}

} // verus!
