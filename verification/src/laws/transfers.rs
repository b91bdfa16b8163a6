//! Which token accounts are accepted, and what is moved between them.

use crate::accounts;
use crate::accounts::Pubkey;
use crate::accounts::TokenAccount;
use crate::accounts::TokenSlot;
use crate::accounts::TransferAuthority;
use crate::collateral;
use crate::collateral::DepositUsdc;
use crate::collateral::WithdrawUsdc;
use crate::error::TariffError;
use crate::margin::MarginAccount;
use crate::market::TariffPerpMarket;
use crate::pyth;
use crate::pyth::PriceFeed;
use crate::trading;
use vstd::prelude::*;

verus! {

/// A vault is accepted exactly when it holds the mint and belongs to the authority. A wrong mint
/// is reported before a wrong owner.
pub proof fn law_vault_is_of_the_mint_and_the_authority(
    vault: TokenAccount,
    mint: Pubkey,
    authority: Pubkey,
)
    ensures
        ({
            let refusal = accounts::vault_refusal(vault, mint, authority);
            &&& vault.mint != mint ==> refusal == Some(TariffError::InvalidMint)
            &&& vault.mint == mint && vault.owner != authority ==> refusal == Some(
                TariffError::InvalidTokenOwner,
            )
            &&& vault.mint == mint && vault.owner == authority ==> refusal is None
        }),
{
}

/// Two vaults are accepted exactly when each is, and a wrong mint of either is reported before a
/// wrong owner of either.
pub proof fn law_both_vaults_are_accepted_or_neither(
    vault: TokenAccount,
    vault_authority: Pubkey,
    insurance: TokenAccount,
    insurance_authority: Pubkey,
    mint: Pubkey,
)
    ensures
        ({
            let refusal = accounts::vaults_refusal(
                vault,
                vault_authority,
                insurance,
                insurance_authority,
                mint,
            );
            let first = accounts::vault_refusal(vault, mint, vault_authority);
            let second = accounts::vault_refusal(insurance, mint, insurance_authority);
            &&& refusal is None <==> first is None && second is None
            &&& refusal is Some ==> refusal == first || refusal == second
            &&& refusal == Some(TariffError::InvalidMint) <==> vault.mint != mint || insurance.mint
                != mint
        }),
{
}

/// What is to be moved is moved whole, between the accounts named, and nothing is not moved.
pub proof fn law_transfer_moves_the_amount(
    from: TokenSlot,
    to: TokenSlot,
    authority: TransferAuthority,
    amount: u64,
)
    ensures
        ({
            let transfer = accounts::transfer_of(from, to, authority, amount);
            &&& transfer is Some <==> amount > 0
            &&& amount > 0 ==> transfer->Some_0.from == from && transfer->Some_0.to == to
                && transfer->Some_0.authority == authority && transfer->Some_0.amount == amount
        }),
{
}

/// A new margin account is its owner's in its market, empty, and owes no funding.
pub proof fn law_new_margin_account_is_empty(
    owner: Pubkey,
    market_key: Pubkey,
    market: TariffPerpMarket,
)
    ensures
        ({
            let new = collateral::new_margin(owner, market_key, market);
            &&& new.owner == owner && new.market == market_key
            &&& new.collateral_usdc == 0 && new.position_base == 0 && new.entry_price_q64 == 0
            &&& new.realized_pnl_usdc == 0 && new.open_notional_q64 == 0
            &&& new.last_funding_index == market.funding_index
        }),
{
}

/// A deposit is taken from the owner of the account, in its market, of something, in the
/// market's mint, to the market's vault, as far as the sum fits. The first of these that fails
/// is reported.
pub proof fn law_deposit_is_refused_in_order(ctx: DepositUsdc, amount: u64)
    ensures
        ({
            let refusal = collateral::deposit_refusal(ctx, amount);
            let owned = ctx.margin.owner == ctx.owner;
            let placed = ctx.margin.market == ctx.market_key;
            let minted = ctx.user_usdc.mint == ctx.market.usdc_mint;
            let vault = accounts::vault_refusal(
                ctx.vault_usdc,
                ctx.market.usdc_mint,
                ctx.vault_authority,
            );
            let fits = ctx.margin.collateral_usdc + amount <= 0xffff_ffff_ffff_ffff;
            &&& !owned ==> refusal == Some(TariffError::Unauthorized)
            &&& owned && !placed ==> refusal == Some(TariffError::InvalidMarket)
            &&& owned && placed && amount == 0 ==> refusal == Some(TariffError::InvalidAmount)
            &&& owned && placed && amount > 0 && !minted ==> refusal == Some(
                TariffError::InvalidMint,
            )
            &&& owned && placed && amount > 0 && minted && vault is Some ==> refusal == vault
            &&& owned && placed && amount > 0 && minted && vault is None && !fits ==> refusal
                == Some(TariffError::MathOverflow)
            &&& owned && placed && amount > 0 && minted && vault is None && fits ==> refusal is None
        }),
{
}

/// A withdrawal goes through exactly when the account is the owner's in the market and oracle
/// handed in, something is withdrawn, the market is not paused, oracle and feed are sound, the
/// mints and the vault are right, funding settles, and what is left meets the initial margin:
/// equity less the amount is at least the initial rate on the notional. The first of these that
/// fails is reported.
pub proof fn law_withdrawal_is_refused_in_order(
    ctx: WithdrawUsdc,
    feed: Option<PriceFeed>,
    amount: u64,
    now: i64,
    required: int,
)
    requires
        ({
            let market = pyth::after_feed(ctx.market, feed);
            let notional = ctx.margin.after_funding(market).notional(market);
            10_000 * required <= notional * ctx.market.initial_margin_bps < 10_000 * required
                + 10_000
        }),
    ensures
        ({
            let refusal = collateral::withdraw_refusal(ctx, feed, amount, now);
            let market = pyth::after_feed(ctx.market, feed);
            let margin = ctx.margin.after_funding(market);
            let trader = trading::trader_refusal(
                ctx.owner,
                ctx.oracle_key,
                ctx.market,
                ctx.market_key,
                ctx.margin,
            );
            let gate = pyth::gate_refusal(ctx.market, ctx.oracle, ctx.pyth_feed.key, feed, now);
            let minted = ctx.user_usdc.mint == ctx.market.usdc_mint;
            let vault = accounts::vault_refusal(
                ctx.vault_usdc,
                ctx.market.usdc_mint,
                ctx.vault_authority,
            );
            let settled = ctx.margin.funding_refusal(market);
            let checked = margin.equity_refusal(market);
            let asked = trader is None && amount > 0 && !ctx.market.paused;
            let entered = asked && gate is None && minted && vault is None && settled is None;
            &&& trader is Some ==> refusal == trader
            &&& trader is None && amount == 0 ==> refusal == Some(TariffError::InvalidAmount)
            &&& trader is None && amount > 0 && ctx.market.paused ==> refusal == Some(
                TariffError::Paused,
            )
            &&& asked && gate is Some ==> refusal == gate
            &&& asked && gate is None && !minted ==> refusal == Some(TariffError::InvalidMint)
            &&& asked && gate is None && minted && vault is Some ==> refusal == vault
            &&& asked && gate is None && minted && vault is None && settled is Some ==> refusal
                == settled
            &&& entered && margin.collateral_usdc < amount ==> refusal == Some(
                TariffError::InsufficientCollateral,
            )
            &&& entered && margin.collateral_usdc >= amount && checked is Some ==> refusal
                == checked
            &&& entered && margin.collateral_usdc >= amount && checked is None && margin.equity(
                market,
            ) - amount < required ==> refusal == Some(TariffError::MarginTooLow)
            &&& entered && margin.collateral_usdc >= amount && checked is None && margin.equity(
                market,
            ) - amount >= required ==> refusal is None
        }),
{
    let market = pyth::after_feed(ctx.market, feed);
    let margin = ctx.margin.after_funding(market);
    let settled = ctx.margin.funding_refusal(market);
    if margin.equity_refusal(market) is None {
        super::accounting::lemma_notional_nonnegative(market, margin);
    }
}

/// A withdrawal takes the amount from the settled collateral, and leaves everything else of the
/// settled account as it was. The market only remembers the feed.
pub proof fn law_withdrawal_takes_the_amount(
    ctx: WithdrawUsdc,
    feed: Option<PriceFeed>,
    amount: u64,
)
    requires
        ctx.margin.after_funding(pyth::after_feed(ctx.market, feed)).collateral_usdc >= amount,
    ensures
        ({
            let after = collateral::withdrawn(ctx, feed, amount);
            let settled = ctx.margin.after_funding(pyth::after_feed(ctx.market, feed));
            &&& after.margin.collateral_usdc + amount == settled.collateral_usdc
            &&& after.margin == (MarginAccount {
                collateral_usdc: after.margin.collateral_usdc,
                ..settled
            })
            &&& after.market == pyth::after_feed(ctx.market, feed)
            &&& after == (WithdrawUsdc { market: after.market, margin: after.margin, ..ctx })
        }),
{
}

/// A withdrawal is reported to its owner, and moves the amount from the vault to the trader with
/// the vault's signature.
pub proof fn law_withdrawal_pays_the_trader(ctx: WithdrawUsdc, amount: u64, now: i64)
    ensures
        ({
            let out = collateral::withdraw_outcome(ctx, amount, now);
            &&& out.event.market == ctx.market_key && out.event.user == ctx.owner
            &&& out.event.amount_usdc == amount && out.event.ts == now
            &&& out.transfer.from == TokenSlot::Vault && out.transfer.to == TokenSlot::User
            &&& out.transfer.authority == TransferAuthority::Vault && out.transfer.amount == amount
        }),
{
}

} // verus!
