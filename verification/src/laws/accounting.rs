//! What a margin account is worth, and what a trade does to it.

use crate::accounts::Pubkey;
use crate::error::TariffError;
use crate::margin;
use crate::margin::MarginAccount;
use crate::market::TariffPerpMarket;
use crate::math;
use vstd::prelude::*;

verus! {

/// The notional of an account that can be valued is not negative.
pub proof fn lemma_notional_nonnegative(market: TariffPerpMarket, margin: MarginAccount)
    requires
        margin.equity_refusal(market) is None,
    ensures
        margin.notional(market) >= 0,
{
    math::lemma_quotient_range(market.quote_reserve * math::Q64, market.base_reserve as int);
    math::lemma_usdc_value_nonnegative(
        math::magnitude(margin.position_base as int),
        market.mark(),
    );
}

/// A credit adds to the collateral, and a debit takes from it no more than there is.
pub proof fn law_collateral_takes_credits_and_debits(collateral: int, amount: int)
    ensures
        collateral + amount >= 0 ==> margin::collateral_after(collateral, amount) == collateral
            + amount,
        collateral + amount < 0 ==> margin::collateral_after(collateral, amount) == 0,
{
}

/// Profit is what the amount is worth at the difference of the prices. A long gains and a short
/// loses as the price rises, by the same amount.
pub proof fn law_profit_is_amount_times_price_change(base: int, entry_q64: int, price_q64: int)
    ensures
        ({
            let product = base * (price_q64 - entry_q64);
            let profit = margin::pnl(base, entry_q64, price_q64);
            let unit = 18_446_744_073_709_551_616_000_000int;
            &&& product >= 0 ==> unit * profit <= product < unit * profit + unit
            &&& product < 0 ==> unit * profit - unit < product <= unit * profit
        }),
        margin::pnl(base, entry_q64, price_q64) == -margin::pnl(-base, entry_q64, price_q64),
        margin::pnl(base, entry_q64, price_q64) == -margin::pnl(base, price_q64, entry_q64),
{
    let d = price_q64 - entry_q64;
    super::arithmetic::law_worth_is_amount_times_price(base, d);
    super::arithmetic::law_worth_is_amount_times_price(base, -d);
    assert(base * (-d) == -(base * d)) by (nonlinear_arith);
    assert(entry_q64 - price_q64 == -d);
}

/// Profit can be computed exactly when the price change and its product with the amount fit.
pub proof fn law_profit_overflows_only_where_it_does_not_fit(
    base: int,
    entry_q64: int,
    price_q64: int,
)
    ensures
        ({
            let fits = math::in_i128(price_q64 - entry_q64) && math::in_i128(
                base * (price_q64 - entry_q64),
            );
            &&& fits ==> margin::pnl_refusal(base, entry_q64, price_q64) is None
            &&& !fits ==> margin::pnl_refusal(base, entry_q64, price_q64) == Some(
                TariffError::MathOverflow,
            )
        }),
{
}

/// The average price of two purchases is the greatest whole price at which both together cost no
/// more than they did. Opposite prices have the opposite average.
pub proof fn law_average_costs_what_the_parts_cost(
    size1: int,
    price1: int,
    size2: int,
    price2: int,
)
    requires
        size1 > 0,
        size2 > 0,
    ensures
        ({
            let average = margin::average_price(size1, price1, size2, price2);
            let cost = size1 * price1 + size2 * price2;
            cost >= 0 ==> (size1 + size2) * average <= cost < (size1 + size2) * average + (size1
                + size2)
        }),
        margin::average_price(size1, -price1, size2, -price2) == -margin::average_price(
            size1,
            price1,
            size2,
            price2,
        ),
{
    let cost = size1 * price1 + size2 * price2;
    let size = size1 + size2;
    assert(size1 * (-price1) + size2 * (-price2) == -cost) by (nonlinear_arith)
        requires
            cost == size1 * price1 + size2 * price2,
    ;
    super::arithmetic::law_quotient_rounds_toward_zero(cost, size);
    let q = math::trunc_div(cost, size);
    assert(q * size == size * q) by (nonlinear_arith);
}

/// An average can be computed exactly when both costs and their sum fit.
pub proof fn law_average_overflows_only_where_it_does_not_fit(
    size1: int,
    price1: int,
    size2: int,
    price2: int,
)
    ensures
        ({
            let refusal = margin::average_price_refusal(size1, price1, size2, price2);
            let fits = math::in_i128(size1 * price1) && math::in_i128(size2 * price2)
                && math::in_i128(size1 * price1 + size2 * price2);
            &&& fits ==> refusal is None
            &&& !fits ==> refusal == Some(TariffError::MathOverflow)
        }),
{
}

/// Equity is collateral plus the profit of closing the position at the mark price, and notional
/// is what the position's size is worth there.
pub proof fn law_equity_is_collateral_plus_profit(market: TariffPerpMarket, margin: MarginAccount)
    ensures
        margin.unrealized_pnl(market.mark()) == margin::pnl(
            margin.position_base as int,
            margin.entry_price_q64 as int,
            market.mark(),
        ),
        margin.equity(market) - margin.collateral_usdc == margin::pnl(
            margin.position_base as int,
            margin.entry_price_q64 as int,
            market.mark(),
        ),
        margin.position_base >= 0 ==> margin.notional(market) == math::usdc_value(
            margin.position_base as int,
            market.mark(),
        ),
        margin.position_base <= 0 ==> margin.notional(market) == math::usdc_value(
            -margin.position_base,
            market.mark(),
        ),
{
}

/// An account and its mirror image, of the opposite position, have the same notional and
/// opposite profits, at any prices.
pub proof fn law_mirror_image_has_the_same_notional(
    market: TariffPerpMarket,
    margin: MarginAccount,
    mirror: MarginAccount,
)
    requires
        mirror.position_base == -margin.position_base,
        mirror.entry_price_q64 == margin.entry_price_q64,
    ensures
        mirror.notional(market) == margin.notional(market),
        mirror.equity(market) - mirror.collateral_usdc == margin.collateral_usdc - margin.equity(
            market,
        ),
{
    super::arithmetic::law_worth_is_amount_times_price(
        margin.position_base as int,
        market.mark() - margin.entry_price_q64,
    );
}

/// The profit at a price can be computed for a flat account, and otherwise where it fits.
pub proof fn law_flat_accounts_have_a_profit(margin: MarginAccount, price_q64: int)
    ensures
        margin.position_base == 0 ==> margin.unrealized_pnl_refusal(price_q64) is None,
        margin.position_base != 0 ==> margin.unrealized_pnl_refusal(price_q64)
            == margin::pnl_refusal(
            margin.position_base as int,
            margin.entry_price_q64 as int,
            price_q64,
        ),
        margin.unrealized_pnl(price_q64) == margin::pnl(
            margin.position_base as int,
            margin.entry_price_q64 as int,
            price_q64,
        ),
{
}

/// An account can be valued exactly when the market has a mark price, and the profit and the
/// worth of the position at it fit. A market without a price is reported first.
pub proof fn law_account_can_be_valued_where_it_fits(
    market: TariffPerpMarket,
    margin: MarginAccount,
)
    ensures
        ({
            let refusal = margin.equity_refusal(market);
            let priced = market.mark_refusal();
            let profit = margin.unrealized_pnl_refusal(market.mark());
            let fits = margin.position_base > i128::MIN && math::in_i128(
                margin.position_base * market.mark(),
            ) && math::in_i128(-(margin.position_base * market.mark()));
            &&& priced is Some ==> refusal == priced
            &&& priced is None && profit is Some ==> refusal == profit
            &&& priced is None && profit is None && fits ==> refusal is None
            &&& priced is None && profit is None && refusal is None && margin.position_base >= 0
                ==> math::in_i128(margin.position_base * market.mark())
            &&& priced is None && profit is None && refusal is None && margin.position_base <= 0
                ==> math::in_i128((-margin.position_base) * market.mark())
            &&& priced is None && profit is None && refusal is Some ==> !fits && refusal == Some(
                TariffError::MathOverflow,
            )
            &&& priced is None && profit is None && margin.position_base > 0 && math::in_i128(
                margin.position_base * market.mark(),
            ) ==> refusal is None
            &&& priced is None && profit is None && i128::MIN < margin.position_base <= 0
                && math::in_i128((-margin.position_base) * market.mark()) ==> refusal is None
            &&& margin.position_base == i128::MIN ==> refusal is Some
        }),
{
    let b = margin.position_base as int;
    let m = market.mark();
    assert((-b) * m == -(b * m)) by (nonlinear_arith);
}

/// Funding is the position times the growth of the funding index since it was last settled: to
/// the trader where they agree in sign, and from the trader where they do not.
pub proof fn law_funding_is_position_times_index_growth(
    margin: MarginAccount,
    market: TariffPerpMarket,
)
    ensures
        ({
            let product = margin.position_base * (market.funding_index
                - margin.last_funding_index);
            let due = margin.funding_due(market);
            let unit = 18_446_744_073_709_551_616_000_000int;
            &&& product >= 0 ==> unit * due <= product < unit * due + unit
            &&& product < 0 ==> unit * due - unit < product <= unit * due
        }),
{
    super::arithmetic::law_worth_is_amount_times_price(
        margin.position_base as int,
        market.funding_index - margin.last_funding_index,
    );
    let b = margin.position_base as int;
    let d = market.funding_index - margin.last_funding_index;
    super::arithmetic::law_worth_is_amount_times_price(b, -d);
    assert(b * (-d) == -(b * d)) by (nonlinear_arith);
}

/// Funding settles exactly when the index growth, its product with the position and the credited
/// collateral fit.
pub proof fn law_funding_settles_where_it_fits(margin: MarginAccount, market: TariffPerpMarket)
    ensures
        ({
            let growth = market.funding_index - margin.last_funding_index;
            let fits = math::in_i128(growth) && math::in_i128(margin.position_base * growth)
                && margin.collateral_usdc + margin.funding_due(market) <= 0xffff_ffff_ffff_ffff;
            &&& fits ==> margin.funding_refusal(market) is None
            &&& !fits ==> margin.funding_refusal(market) == Some(TariffError::MathOverflow)
        }),
{
}

/// Settling credits or debits the funding, remembers the index, and leaves everything else of
/// the account as it was.
pub proof fn law_settling_moves_only_the_collateral(
    margin: MarginAccount,
    market: TariffPerpMarket,
)
    requires
        margin.collateral_usdc + margin.funding_due(market) <= 0xffff_ffff_ffff_ffff,
    ensures
        ({
            let after = margin.after_funding(market);
            let due = margin.funding_due(market);
            &&& margin.collateral_usdc + due >= 0 ==> after.collateral_usdc
                == margin.collateral_usdc + due
            &&& margin.collateral_usdc + due < 0 ==> after.collateral_usdc == 0
            &&& after.last_funding_index == market.funding_index
            &&& after == (MarginAccount {
                collateral_usdc: after.collateral_usdc,
                last_funding_index: after.last_funding_index,
                ..margin
            })
        }),
{
}

/// A profit or loss is realized into the collateral, as far as there is any, and counted whole.
/// Nothing else of the account changes. It is refused only where a number does not fit.
pub proof fn law_realizing_moves_collateral_and_count(margin: MarginAccount, amount: int)
    ensures
        ({
            let fits = math::in_i64(amount) && math::in_i64(margin.realized_pnl_usdc + amount)
                && margin.collateral_usdc + amount <= 0xffff_ffff_ffff_ffff;
            let after = margin.after_realizing(amount);
            &&& !fits ==> margin.realize_refusal(amount) == Some(TariffError::MathOverflow)
            &&& fits ==> margin.realize_refusal(amount) is None
            &&& fits ==> after.realized_pnl_usdc == margin.realized_pnl_usdc + amount
            &&& fits && margin.collateral_usdc + amount >= 0 ==> after.collateral_usdc
                == margin.collateral_usdc + amount
            &&& margin.collateral_usdc + amount < 0 ==> after.collateral_usdc == 0
            &&& after == (MarginAccount {
                realized_pnl_usdc: after.realized_pnl_usdc,
                collateral_usdc: after.collateral_usdc,
                ..margin
            })
        }),
{
}

/// A trade moves the position by exactly its size, and touches neither owner, market nor the
/// funding index of the account.
pub proof fn law_trade_moves_the_position(margin: MarginAccount, price_q64: int, delta: int)
    requires
        math::in_i128(margin.position_base + delta),
    ensures
        ({
            let after = margin.after_trade(price_q64, delta);
            &&& after.position_base - margin.position_base == delta
            &&& after.owner == margin.owner && after.market == margin.market
            &&& after.last_funding_index == margin.last_funding_index
        }),
{
}

/// A position that is opened enters at the price, and costs nothing but the fee.
pub proof fn law_opened_position_enters_at_the_price(
    margin: MarginAccount,
    price_q64: int,
    delta: int,
)
    requires
        margin.position_base == 0,
        math::in_i128(price_q64),
        math::in_i128(delta),
    ensures
        ({
            let after = margin.after_trade(price_q64, delta);
            &&& margin.trade_refusal(price_q64, delta) is None
            &&& after.entry_price_q64 == price_q64 && after.open_notional_q64 == 0
            &&& after.collateral_usdc == margin.collateral_usdc && after.realized_pnl_usdc
                == margin.realized_pnl_usdc
        }),
{
}

/// Adding to a position, long or short, averages its entry price over both sizes and realizes
/// nothing.
pub proof fn law_adding_averages_the_entry(margin: MarginAccount, price_q64: int, delta: int)
    requires
        (margin.position_base > 0 && delta > 0) || (margin.position_base < 0 && delta < 0),
        math::in_i128(margin.position_base + delta),
        math::in_i128(price_q64),
        margin.trade_refusal(price_q64, delta) is None,
    ensures
        ({
            let after = margin.after_trade(price_q64, delta);
            let cost = margin.position_base * margin.entry_price_q64 + delta * price_q64;
            let kept = after.position_base * after.entry_price_q64;
            let positive = margin.entry_price_q64 >= 0 && price_q64 >= 0;
            &&& positive && delta > 0 ==> kept <= cost < kept + after.position_base
            &&& positive && delta < 0 ==> kept >= cost > kept + after.position_base
            &&& after.entry_price_q64 == margin::average_price(
                math::magnitude(margin.position_base as int),
                margin.entry_price_q64 as int,
                math::magnitude(delta),
                price_q64,
            )
            &&& after.collateral_usdc == margin.collateral_usdc && after.realized_pnl_usdc
                == margin.realized_pnl_usdc && after.open_notional_q64
                == margin.open_notional_q64
        }),
{
    let pos = margin.position_base as int;
    let entry = margin.entry_price_q64 as int;
    let size1 = math::magnitude(pos);
    let size2 = math::magnitude(delta);
    let avg = margin::average_price(size1, entry, size2, price_q64);
    let cost = size1 * entry + size2 * price_q64;
    assert(entry >= 0 && price_q64 >= 0 ==> cost >= 0) by (nonlinear_arith)
        requires
            size1 >= 0,
            size2 >= 0,
            cost == size1 * entry + size2 * price_q64,
    ;
    law_average_costs_what_the_parts_cost(size1, entry, size2, price_q64);
    math::lemma_quotient_range(math::magnitude(cost), size1 + size2);
    if delta < 0 {
        let new = pos + delta;
        assert(pos * entry + delta * price_q64 == -cost) by (nonlinear_arith)
            requires
                cost == (-pos) * entry + (-delta) * price_q64,
        ;
        assert(new * avg == -((-new) * avg)) by (nonlinear_arith);
    }
}

/// Trading against a position realizes the profit on the part that is closed: the smaller of the
/// trade and the position, in the position's direction. A position that is reduced keeps its
/// entry price, one that is closed has none, and one that is turned round enters at the price.
pub proof fn law_reducing_realizes_the_closed_part(
    margin: MarginAccount,
    price_q64: int,
    delta: int,
)
    requires
        (margin.position_base > 0 && delta < 0) || (margin.position_base < 0 && delta > 0),
        math::in_i128(price_q64),
        math::in_i128(delta),
        margin.trade_refusal(price_q64, delta) is None,
    ensures
        ({
            let after = margin.after_trade(price_q64, delta);
            let long = margin.position_base > 0;
            let size = math::least(
                math::magnitude(margin.position_base as int),
                math::magnitude(delta),
            );
            let closed = if long {
                size
            } else {
                -size
            };
            let profit = margin::pnl(closed, margin.entry_price_q64 as int, price_q64);
            &&& after.realized_pnl_usdc - margin.realized_pnl_usdc == profit
            &&& margin.collateral_usdc + profit >= 0 ==> after.collateral_usdc
                - margin.collateral_usdc == profit
            &&& margin.collateral_usdc + profit < 0 ==> after.collateral_usdc == 0
            &&& after.position_base == 0 ==> after.entry_price_q64 == 0
                && after.open_notional_q64 == 0
            &&& after.position_base != 0 && (after.position_base > 0) == long
                ==> after.entry_price_q64 == margin.entry_price_q64
            &&& after.position_base != 0 && (after.position_base > 0) != long
                ==> after.entry_price_q64 == price_q64
            &&& after.position_base != 0 ==> after.open_notional_q64 == margin.open_notional_q64
        }),
{
}

/// A trade of nothing changes nothing of an account with a position.
pub proof fn law_trading_nothing_changes_nothing(margin: MarginAccount, price_q64: int)
    requires
        margin.position_base != 0,
    ensures
        margin.after_trade(price_q64, 0) == margin,
{
}

/// A trade is recorded wherever the numbers fit: the new position, and for a trade in the
/// position's direction the average, or for one against it the profit on the part closed and
/// what it is realized into. Every refusal is an overflow.
pub proof fn law_trade_is_recorded_where_it_fits(
    margin: MarginAccount,
    price_q64: int,
    delta: int,
)
    requires
        math::in_i128(delta),
    ensures
        ({
            let refusal = margin.trade_refusal(price_q64, delta);
            let pos = margin.position_base as int;
            let entry = margin.entry_price_q64 as int;
            let new = pos + delta;
            let symmetric = pos > i128::MIN && new > i128::MIN && delta > i128::MIN;
            let adds = (pos > 0 && delta > 0) || (pos < 0 && delta < 0);
            let size = math::least(math::magnitude(pos), math::magnitude(delta));
            let closed = if pos > 0 {
                size
            } else {
                -size
            };
            let average = margin::average_price_refusal(
                math::magnitude(pos),
                entry,
                math::magnitude(delta),
                price_q64,
            );
            let profit = margin::pnl_refusal(closed, entry, price_q64);
            let realize = margin.realize_refusal(margin::pnl(closed, entry, price_q64));
            &&& refusal is Some ==> refusal == Some(TariffError::MathOverflow)
            &&& !math::in_i128(new) ==> refusal is Some
            &&& math::in_i128(new) && pos == 0 ==> refusal is None
            &&& math::in_i128(new) && pos != 0 && delta == 0 && symmetric ==> refusal is None
            &&& math::in_i128(new) && adds && symmetric ==> (refusal is None <==> average is None)
            &&& math::in_i128(new) && pos != 0 && delta != 0 && !adds && (symmetric || new == 0)
                ==> (refusal is None <==> profit is None && realize is None)
            &&& pos != 0 && new != 0 && !symmetric ==> refusal is Some
        }),
{
}

/// Accounts that differ only in who owns them are treated alike.
pub proof fn law_trade_does_not_depend_on_the_owner(
    margin: MarginAccount,
    owner: Pubkey,
    price_q64: int,
    delta: int,
)
    ensures
        ({
            let other = MarginAccount { owner, ..margin };
            &&& other.trade_refusal(price_q64, delta) == margin.trade_refusal(price_q64, delta)
            &&& other.after_trade(price_q64, delta) == (MarginAccount {
                owner,
                ..margin.after_trade(price_q64, delta)
            })
        }),
{
}

} // verus!
