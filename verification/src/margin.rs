//! A trader's margin account: collateral, position, equity and funding.

use crate::accounts::Pubkey;
use crate::error;
use crate::error::TariffError;
use crate::market::TariffPerpMarket;
use crate::math;
use vstd::prelude::*;

verus! {

/// A trader's margin account in one market.
#[derive(Clone, Copy, Debug, PartialEq, Eq)]
pub struct MarginAccount {
    pub owner: Pubkey,
    pub market: Pubkey,
    /// Collateral, in micro-USDC.
    pub collateral_usdc: u64,
    /// Position in micro-base: positive for a long, negative for a short.
    pub position_base: i128,
    /// Average entry price, in Q64.64.
    pub entry_price_q64: i128,
    /// The market's funding index when funding was last settled.
    pub last_funding_index: i128,
    /// Realized profit and loss, in micro-USDC.
    pub realized_pnl_usdc: i64,
    pub open_notional_q64: i128,
}

/// The collateral after `amount` was credited, or debited as far as there is collateral.
pub open spec fn collateral_after(collateral: int, amount: int) -> int {
    if collateral + amount < 0 {
        0
    } else {
        collateral + amount
    }
}

/// The profit of `base` micro-base bought at `entry_q64` when the price is `price_q64`.
pub open spec fn pnl(base: int, entry_q64: int, price_q64: int) -> int {
    math::usdc_value(base, price_q64 - entry_q64)
}

/// When `pnl` cannot be computed.
pub open spec fn pnl_refusal(base: int, entry_q64: int, price_q64: int) -> Option<TariffError> {
    error::overflow_unless(
        math::in_i128(price_q64 - entry_q64) && math::in_i128(base * (price_q64 - entry_q64)),
    )
}

/// The average of two prices, weighted by the sizes bought at each, rounded toward zero.
pub open spec fn average_price(size1: int, price1: int, size2: int, price2: int) -> int {
    math::trunc_div(size1 * price1 + size2 * price2, size1 + size2)
}

/// When the average cannot be computed.
pub open spec fn average_price_refusal(
    size1: int,
    price1: int,
    size2: int,
    price2: int,
) -> Option<TariffError> {
    error::overflow_unless(
        math::in_i128(size1 * price1) && math::in_i128(size2 * price2) && math::in_i128(
            size1 * price1 + size2 * price2,
        ),
    )
}

impl MarginAccount {
    /// Serialized size in bytes.
    pub const SPACE: usize = 32 + 32 + 8 + 16 + 16 + 16 + 8 + 16;

    /// The profit that closing the position at `mark_q64` would give.
    pub open spec fn unrealized_pnl(self, mark_q64: int) -> int {
        pnl(self.position_base as int, self.entry_price_q64 as int, mark_q64)
    }

    /// When that profit cannot be computed.
    pub open spec fn unrealized_pnl_refusal(self, mark_q64: int) -> Option<TariffError> {
        if self.position_base == 0 {
            None
        } else {
            pnl_refusal(self.position_base as int, self.entry_price_q64 as int, mark_q64)
        }
    }

    /// Collateral and unrealized profit at the market's mark price.
    pub open spec fn equity(self, market: TariffPerpMarket) -> int {
        self.collateral_usdc + self.unrealized_pnl(market.mark())
    }

    /// What the position is worth at the market's mark price.
    pub open spec fn notional(self, market: TariffPerpMarket) -> int {
        math::usdc_value(math::magnitude(self.position_base as int), market.mark())
    }

    /// When equity and notional cannot be computed.
    pub open spec fn equity_refusal(self, market: TariffPerpMarket) -> Option<TariffError> {
        if market.mark_refusal() is Some {
            market.mark_refusal()
        } else if self.unrealized_pnl_refusal(market.mark()) is Some {
            self.unrealized_pnl_refusal(market.mark())
        } else {
            error::overflow_unless(
                self.position_base != i128::MIN && math::in_i128(
                    math::magnitude(self.position_base as int) * market.mark(),
                ),
            )
        }
    }

    /// Funding since the last settlement, in micro-USDC: positive to the trader.
    pub open spec fn funding_due(self, market: TariffPerpMarket) -> int {
        math::usdc_value(
            self.position_base as int,
            market.funding_index - self.last_funding_index,
        )
    }

    /// When funding cannot be settled.
    pub open spec fn funding_refusal(self, market: TariffPerpMarket) -> Option<TariffError> {
        let delta = market.funding_index - self.last_funding_index;
        error::overflow_unless(
            math::in_i128(delta) && math::in_i128(self.position_base * delta)
                && self.collateral_usdc + self.funding_due(market) <= u64::MAX,
        )
    }

    /// The account with funding settled.
    pub open spec fn after_funding(self, market: TariffPerpMarket) -> Self {
        MarginAccount {
            collateral_usdc: collateral_after(
                self.collateral_usdc as int,
                self.funding_due(market),
            ) as u64,
            last_funding_index: market.funding_index,
            ..self
        }
    }

    /// When `amount` cannot be realized.
    pub open spec fn realize_refusal(self, amount: int) -> Option<TariffError> {
        error::overflow_unless(
            math::in_i64(amount) && math::in_i64(self.realized_pnl_usdc + amount)
                && self.collateral_usdc + amount <= u64::MAX,
        )
    }

    /// The account with the profit or loss `amount` realized into its collateral.
    pub open spec fn after_realizing(self, amount: int) -> Self {
        MarginAccount {
            realized_pnl_usdc: (self.realized_pnl_usdc + amount) as i64,
            collateral_usdc: collateral_after(self.collateral_usdc as int, amount) as u64,
            ..self
        }
    }

    /// The signed part of the position that a trade of `delta` against it closes.
    pub open spec fn closed_by(self, delta: int) -> int {
        if math::magnitude(delta) >= math::magnitude(self.position_base as int) {
            self.position_base as int
        } else {
            -delta
        }
    }

    /// Whether a trade of `delta` adds to the position.
    pub open spec fn adds(self, delta: int) -> bool {
        (self.position_base > 0 && delta > 0) || (self.position_base < 0 && delta < 0)
    }

    /// Whether a trade of `delta` goes against the position.
    pub open spec fn opposes(self, delta: int) -> bool {
        (self.position_base > 0 && delta < 0) || (self.position_base < 0 && delta > 0)
    }

    /// When the position cannot be changed by `delta` at `price_q64`.
    pub open spec fn trade_refusal(self, price_q64: int, delta: int) -> Option<TariffError> {
        let pos = self.position_base as int;
        let entry = self.entry_price_q64 as int;
        let closed = self.closed_by(delta);
        if !math::in_i128(pos + delta) {
            Some(TariffError::MathOverflow)
        } else if pos == 0 {
            None
        } else if pos + delta != 0 && (pos == i128::MIN || pos + delta == i128::MIN || delta
            == i128::MIN) {
            Some(TariffError::MathOverflow)
        } else if self.adds(delta) {
            average_price_refusal(math::magnitude(pos), entry, math::magnitude(delta), price_q64)
        } else if self.opposes(delta) {
            if pnl_refusal(closed, entry, price_q64) is Some {
                pnl_refusal(closed, entry, price_q64)
            } else {
                self.realize_refusal(pnl(closed, entry, price_q64))
            }
        } else {
            None
        }
    }

    /// The account after its position changed by `delta` at `price_q64`. Adding to a position
    /// averages the entry price. Trading against it realizes the profit on the part closed; a
    /// position that is closed has no entry price, and one that is flipped enters at the price.
    pub open spec fn after_trade(self, price_q64: int, delta: int) -> Self {
        let pos = self.position_base as int;
        let entry = self.entry_price_q64 as int;
        let moved = MarginAccount { position_base: (pos + delta) as i128, ..self };
        if pos == 0 {
            MarginAccount { entry_price_q64: price_q64 as i128, open_notional_q64: 0, ..moved }
        } else if self.adds(delta) {
            MarginAccount {
                entry_price_q64: average_price(
                    math::magnitude(pos),
                    entry,
                    math::magnitude(delta),
                    price_q64,
                ) as i128,
                ..moved
            }
        } else if self.opposes(delta) {
            let realized = moved.after_realizing(pnl(self.closed_by(delta), entry, price_q64));
            if pos + delta == 0 {
                MarginAccount { entry_price_q64: 0, open_notional_q64: 0, ..realized }
            } else if math::magnitude(delta) > math::magnitude(pos) {
                MarginAccount { entry_price_q64: price_q64 as i128, ..realized }
            } else {
                realized
            }
        } else {
            moved
        }
    }
}

/// The position's profit at `mark_q64`, in micro-USDC.
pub fn unrealized_pnl_usdc_micro(margin: &MarginAccount, mark_q64: i128) -> (res: Result<
    i128,
    TariffError,
>)
    ensures
        error::amount_outcome(
            res,
            margin.unrealized_pnl_refusal(mark_q64 as int),
            margin.unrealized_pnl(mark_q64 as int),
        ),
{
    let pos: i128 = margin.position_base;
    if pos == 0 {
        return Ok(0);
    }
    pnl_on_close_usdc_micro(pos, margin.entry_price_q64, mark_q64)
}

/// The profit of closing `signed_base` at `exec_q64`, in micro-USDC.
pub fn pnl_on_close_usdc_micro(signed_base: i128, entry_q64: i128, exec_q64: i128) -> (res: Result<
    i128,
    TariffError,
>)
    ensures
        error::amount_outcome(
            res,
            pnl_refusal(signed_base as int, entry_q64 as int, exec_q64 as int),
            pnl(signed_base as int, entry_q64 as int, exec_q64 as int),
        ),
{
    let diff: i128 = exec_q64.checked_sub(entry_q64).ok_or(TariffError::MathOverflow)?;
    math::base_times_price_to_usdc_micro(signed_base, diff)
}

/// Equity and notional at the market's mark price, in micro-USDC.
pub fn compute_equity_and_notional_usdc(
    market: &TariffPerpMarket,
    margin: &MarginAccount,
) -> (res: Result<(i128, i128), TariffError>)
    ensures
        match margin.equity_refusal(*market) {
            Some(e) => res == Err::<(i128, i128), TariffError>(e),
            None => {
                &&& res is Ok
                &&& res->Ok_0.0 == margin.equity(*market)
                &&& res->Ok_0.1 == margin.notional(*market)
            },
        },
{
    let collateral: i128 = margin.collateral_usdc as i128;
    let mark_q64: i128 = market.mark_price_q64()?;
    let profit: i128 = unrealized_pnl_usdc_micro(margin, mark_q64)?;
    proof {
        if margin.position_base != 0 {
            math::lemma_usdc_value_range(
                margin.position_base as int,
                mark_q64 - margin.entry_price_q64,
            );
        }
    }
    let equity: i128 = collateral.checked_add(profit).ok_or(TariffError::MathOverflow)?;
    let pos_abs: i128 = math::i128_abs(margin.position_base)?;
    let notional: i128 = math::base_times_price_to_usdc_micro(pos_abs, mark_q64)?;
    Ok((equity, notional))
}

/// Credits `amount` to the collateral, or debits it as far as there is collateral.
fn move_collateral(collateral: u64, amount: i128) -> (res: Result<u64, TariffError>)
    requires
        -u64::MAX <= amount <= u64::MAX,
    ensures
        error::outcome(
            res,
            error::overflow_unless(collateral + amount <= u64::MAX),
            collateral_after(collateral as int, amount as int) as u64,
        ),
{
    if amount < 0 {
        let debit: i128 = math::i128_neg(amount)?;
        let debit_u64: u64 = math::i128_to_u64(debit)?;
        if collateral >= debit_u64 {
            Ok(collateral - debit_u64)
        } else {
            Ok(0)
        }
    } else {
        let credit_u64: u64 = math::i128_to_u64(amount)?;
        collateral.checked_add(credit_u64).ok_or(TariffError::MathOverflow)
    }
}

/// Settles funding into the collateral.
pub fn settle_funding(market: &TariffPerpMarket, margin: &mut MarginAccount) -> (res: Result<
    (),
    TariffError,
>)
    ensures
        error::outcome(res, old(margin).funding_refusal(*market), ()),
        *final(margin) == (if res is Ok {
            old(margin).after_funding(*market)
        } else {
            *old(margin)
        }),
{
    let delta: i128 = market.funding_index.checked_sub(margin.last_funding_index).ok_or(
        TariffError::MathOverflow,
    )?;
    if delta == 0 || margin.position_base == 0 {
        assert(margin.position_base * delta == 0) by (nonlinear_arith)
            requires
                delta == 0 || margin.position_base == 0,
        ;
        margin.last_funding_index = market.funding_index;
        return Ok(());
    }
    let funding_usdc: i128 = math::base_times_price_to_usdc_micro(margin.position_base, delta)?;
    proof {
        math::lemma_usdc_value_range(margin.position_base as int, delta as int);
    }
    let collateral_usdc: u64 = move_collateral(margin.collateral_usdc, funding_usdc)?;
    margin.collateral_usdc = collateral_usdc;
    margin.last_funding_index = market.funding_index;
    Ok(())
}

/// Realizes a profit or loss into the collateral.
pub fn apply_realized_pnl(margin: &mut MarginAccount, pnl_usdc_micro: i128) -> (res: Result<
    (),
    TariffError,
>)
    ensures
        error::outcome(res, old(margin).realize_refusal(pnl_usdc_micro as int), ()),
        *final(margin) == (if res is Ok {
            old(margin).after_realizing(pnl_usdc_micro as int)
        } else {
            *old(margin)
        }),
{
    let pnl_i64: i64 = math::i128_to_i64(pnl_usdc_micro)?;
    let realized_pnl_usdc: i64 = margin.realized_pnl_usdc.checked_add(pnl_i64).ok_or(
        TariffError::MathOverflow,
    )?;
    let collateral_usdc: u64 = move_collateral(margin.collateral_usdc, pnl_usdc_micro)?;
    margin.realized_pnl_usdc = realized_pnl_usdc;
    margin.collateral_usdc = collateral_usdc;
    Ok(())
}

/// Changes the position by `signed_delta` at the execution price.
pub fn update_position_and_entry(
    margin: &mut MarginAccount,
    exec_price_q64: i128,
    signed_delta: i128,
) -> (res: Result<(), TariffError>)
    ensures
        error::outcome(
            res,
            old(margin).trade_refusal(exec_price_q64 as int, signed_delta as int),
            (),
        ),
        *final(margin) == (if res is Ok {
            old(margin).after_trade(exec_price_q64 as int, signed_delta as int)
        } else {
            *old(margin)
        }),
{
    let old_pos: i128 = margin.position_base;
    let new_pos: i128 = old_pos.checked_add(signed_delta).ok_or(TariffError::MathOverflow)?;
    if old_pos == 0 {
        margin.position_base = new_pos;
        margin.entry_price_q64 = exec_price_q64;
        margin.open_notional_q64 = 0;
        return Ok(());
    }
    if new_pos == 0 {
        let profit: i128 = pnl_on_close_usdc_micro(
            old_pos,
            margin.entry_price_q64,
            exec_price_q64,
        )?;
        apply_realized_pnl(margin, profit)?;
        margin.position_base = 0;
        margin.entry_price_q64 = 0;
        margin.open_notional_q64 = 0;
        return Ok(());
    }
    let old_abs: i128 = math::i128_abs(old_pos)?;
    let new_abs: i128 = math::i128_abs(new_pos)?;
    let delta_abs: i128 = math::i128_abs(signed_delta)?;
    if math::same_sign_nonzero(old_pos, new_pos) && new_abs > old_abs {
        let num1: i128 = old_abs.checked_mul(margin.entry_price_q64).ok_or(
            TariffError::MathOverflow,
        )?;
        let num2: i128 = delta_abs.checked_mul(exec_price_q64).ok_or(TariffError::MathOverflow)?;
        let num: i128 = num1.checked_add(num2).ok_or(TariffError::MathOverflow)?;
        proof {
            math::lemma_quotient_range(math::magnitude(num as int), new_abs as int);
        }
        let avg: i128 = num.checked_div(new_abs).ok_or(TariffError::MathOverflow)?;
        margin.position_base = new_pos;
        margin.entry_price_q64 = avg;
        return Ok(());
    }
    if (old_pos > 0 && signed_delta < 0) || (old_pos < 0 && signed_delta > 0) {
        let closed_abs: i128 = if delta_abs > old_abs {
            old_abs
        } else {
            delta_abs
        };
        let closed_signed: i128 = if old_pos > 0 {
            closed_abs
        } else {
            math::i128_neg(closed_abs)?
        };
        let profit: i128 = pnl_on_close_usdc_micro(
            closed_signed,
            margin.entry_price_q64,
            exec_price_q64,
        )?;
        apply_realized_pnl(margin, profit)?;
        margin.position_base = new_pos;
        if delta_abs > old_abs {
            margin.entry_price_q64 = exec_price_q64;
        }
        return Ok(());
    }
    margin.position_base = new_pos;
    Ok(())
}

} // verus!
