//! What the arithmetic means, in products and inequalities.

use crate::error;
use crate::error::TariffError;
use crate::math;
use vstd::prelude::*;

verus! {

/// A call that is not refused gives exactly its value, and a refused one exactly its refusal.
pub proof fn law_outcome_is_the_refusal_or_the_value<T>(
    res: Result<T, TariffError>,
    amount: Result<i128, TariffError>,
    e: TariffError,
    value: T,
    number: int,
)
    ensures
        error::outcome(res, None, value) <==> (res is Ok && res->Ok_0 == value),
        error::outcome(res, Some(e), value) <==> (res is Err && res->Err_0 == e),
        error::amount_outcome(amount, None, number) <==> (amount is Ok && amount->Ok_0 == number),
        error::amount_outcome(amount, Some(e), number) <==> (amount is Err && amount->Err_0 == e),
{
}

/// What fits is not refused, and what does not fit is refused as an overflow.
pub proof fn law_only_what_does_not_fit_overflows(fits: bool)
    ensures
        error::overflow_unless(fits) is None <==> fits,
        !fits ==> error::overflow_unless(fits)->Some_0 == TariffError::MathOverflow,
{
}

/// A number fits a signed type of `n` bits when it lies from minus two to the power `n - 1` to
/// one below it.
pub proof fn law_fitting_is_lying_in_the_range(x: int)
    ensures
        math::in_i128(x) <==> -170_141_183_460_469_231_731_687_303_715_884_105_728 <= x
            <= 170_141_183_460_469_231_731_687_303_715_884_105_727,
        math::in_i64(x) <==> -9_223_372_036_854_775_808 <= x <= 9_223_372_036_854_775_807,
{
}

/// A number and its opposite have the same size, which is the one of them that is not negative.
pub proof fn law_size_drops_the_sign(x: int)
    ensures
        math::magnitude(x) == math::magnitude(-x),
        x >= 0 ==> math::magnitude(x) == x,
{
}

/// The smaller and the larger of two numbers are the two numbers, in this order.
pub proof fn law_least_and_greatest_are_the_two(a: int, b: int)
    ensures
        math::least(a, b) <= math::greatest(a, b),
        math::least(a, b) + math::greatest(a, b) == a + b,
        math::least(a, b) == a || math::least(a, b) == b,
{
}

/// A quotient is the greatest number of whole divisors in the dividend, and the quotient of the
/// opposite is the opposite.
pub proof fn law_quotient_rounds_toward_zero(n: int, d: int)
    requires
        d > 0,
    ensures
        n >= 0 ==> math::trunc_div(n, d) * d <= n < math::trunc_div(n, d) * d + d,
        math::trunc_div(-n, d) == -math::trunc_div(n, d),
{
    if n >= 0 {
        let q = n / d;
        assert(q * d <= n < q * d + d) by (nonlinear_arith)
            requires
                d > 0,
                n >= 0,
                q == n / d,
        ;
    }
    if n == 0 {
        assert(0int / d == 0) by (nonlinear_arith)
            requires
                d > 0,
        ;
    }
}

/// A clamped number is the bound it passed, or itself where it passed none.
pub proof fn law_clamped_is_the_bound_it_passed(x: int, lo: int, hi: int)
    requires
        lo <= hi,
    ensures
        lo <= math::clamp(x, lo, hi) <= hi,
        lo <= x <= hi ==> math::clamp(x, lo, hi) == x,
        x < lo ==> math::clamp(x, lo, hi) == lo,
        x > hi ==> math::clamp(x, lo, hi) == hi,
{
}

/// A part in basis points is the greatest whole amount of which ten thousand times is within
/// amount times rate. The part of the opposite amount is the opposite part.
pub proof fn law_part_is_rate_times_amount_over_ten_thousand(amount: int, bps: int)
    requires
        bps >= 0,
    ensures
        amount >= 0 ==> 10_000 * math::bps_of(amount, bps) <= amount * bps < 10_000 * math::bps_of(
            amount,
            bps,
        ) + 10_000,
        math::bps_of(-amount, bps) == -math::bps_of(amount, bps),
{
    assert((-amount) * bps == -(amount * bps)) by (nonlinear_arith);
    if amount >= 0 {
        assert(amount * bps >= 0) by (nonlinear_arith)
            requires
                amount >= 0,
                bps >= 0,
        ;
    }
}

/// What an amount is worth at a price: amount times price, over two to the power 64 and over a
/// million, rounded down once. The opposite amount or price has the opposite worth.
pub proof fn law_worth_is_amount_times_price(base: int, price_q64: int)
    ensures
        base * price_q64 >= 0 ==> 18_446_744_073_709_551_616_000_000 * math::usdc_value(
            base,
            price_q64,
        ) <= base * price_q64 < 18_446_744_073_709_551_616_000_000 * math::usdc_value(
            base,
            price_q64,
        ) + 18_446_744_073_709_551_616_000_000,
        math::usdc_value(-base, price_q64) == -math::usdc_value(base, price_q64),
        math::usdc_value(base, -price_q64) == -math::usdc_value(base, price_q64),
{
    assert((-base) * price_q64 == -(base * price_q64)) by (nonlinear_arith);
    assert(base * (-price_q64) == -(base * price_q64)) by (nonlinear_arith);
}

/// Basis points as a fraction in units of two to the power minus 64, rounded down once. Opposite
/// basis points are the opposite fraction.
pub proof fn law_fraction_is_basis_points_over_ten_thousand(bps: int)
    ensures
        bps >= 0 ==> 10_000 * math::bps_as_q64(bps) <= bps * 18_446_744_073_709_551_616 < 10_000
            * math::bps_as_q64(bps) + 10_000,
        math::bps_as_q64(-bps) == -math::bps_as_q64(bps),
{
}

/// The price of reserves is the greatest one at which the base reserve is worth no more than the
/// quote reserve.
pub proof fn law_price_is_quote_over_base(base: int, quote: int)
    requires
        base > 0,
    ensures
        base * math::mark_price(base, quote) <= quote * 18_446_744_073_709_551_616 < base
            * math::mark_price(base, quote) + base,
{
    let n = quote * 18_446_744_073_709_551_616;
    let q = n / base;
    assert(base * q <= n < base * q + base) by (nonlinear_arith)
        requires
            base > 0,
            q == n / base,
    ;
}

/// Reserves have a price exactly when both are positive and the scaled quote reserve fits.
pub proof fn law_positive_reserves_have_a_price(base: int, quote: int)
    ensures
        math::mark_price_refusal(base, quote) == Some(TariffError::InvalidReserve) <==> base <= 0
            || quote <= 0,
        math::mark_price_refusal(base, quote) is None <==> base > 0 && quote > 0 && quote
            < 9_223_372_036_854_775_808,
        math::mark_price_refusal(base, quote) is Some && base > 0 && quote > 0
            ==> math::mark_price_refusal(base, quote) == Some(TariffError::MathOverflow),
{
}

/// A long executes at the price plus the spread and a short at the price minus the spread, each
/// rounded down.
pub proof fn law_spread_is_added_for_longs_and_taken_for_shorts(
    price_q64: int,
    spread_bps: u16,
    side: u8,
)
    requires
        spread_bps <= 10_000,
        price_q64 >= 0,
    ensures
        ({
            let long = math::spread_price(price_q64, spread_bps, 0);
            10_000 * long <= 10_000 * price_q64 + price_q64 * spread_bps < 10_000 * long + 10_000
        }),
        side != 0 ==> ({
            let short = math::spread_price(price_q64, spread_bps, side);
            10_000 * short <= 10_000 * price_q64 - price_q64 * spread_bps < 10_000 * short + 10_000
        }),
{
    let s = spread_bps as int;
    assert(price_q64 * (10_000 + s) == 10_000 * price_q64 + price_q64 * s) by (nonlinear_arith);
    assert(price_q64 * (10_000 - s) == 10_000 * price_q64 - price_q64 * s) by (nonlinear_arith);
    assert(0 <= price_q64 * s <= price_q64 * 10_000) by (nonlinear_arith)
        requires
            price_q64 >= 0,
            0 <= s <= 10_000,
    ;
}

/// A spread above one whole is refused as such, and any other spread only where the scaled price
/// does not fit. The spread on the opposite price is opposite.
pub proof fn law_spread_is_refused_above_one_whole(price_q64: int, spread_bps: u16, side: u8)
    ensures
        math::spread_price_refusal(price_q64, spread_bps, side) == Some(TariffError::InvalidBps)
            <==> spread_bps > 10_000,
        spread_bps <= 10_000 && side == 0 ==> math::spread_price_refusal(
            price_q64,
            spread_bps,
            side,
        ) == error::overflow_unless(math::in_i128(price_q64 * (10_000 + spread_bps))),
        spread_bps <= 10_000 && side != 0 ==> math::spread_price_refusal(
            price_q64,
            spread_bps,
            side,
        ) == error::overflow_unless(math::in_i128(price_q64 * (10_000 - spread_bps))),
        spread_bps <= 10_000 ==> math::spread_price(-price_q64, spread_bps, side)
            == -math::spread_price(price_q64, spread_bps, side),
{
    let s = math::spread_factor_bps(spread_bps, side);
    assert((-price_q64) * s == -(price_q64 * s)) by (nonlinear_arith);
}

} // verus!
