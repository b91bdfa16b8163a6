//! Fixed-point arithmetic: Q64.64 prices, basis points and micro-unit amounts.

use crate::error;
use crate::error::TariffError;
use vstd::prelude::*;

verus! {

/// Scale of a Q64.64 price: two to the power 64.
pub const Q64: i128 = 18_446_744_073_709_551_616;

/// Basis points in one whole.
pub const BPS_DENOM_I128: i128 = 10_000;

/// Basis points in one whole.
pub const BPS_DENOM_U64: u64 = 10_000;

/// Micro-base in one base unit.
pub const BASE_Q: i128 = 1_000_000;

/// Whether `x` fits an `i128`.
pub open spec fn in_i128(x: int) -> bool {
    i128::MIN <= x <= i128::MAX
}

/// Whether `x` fits an `i64`.
pub open spec fn in_i64(x: int) -> bool {
    i64::MIN <= x <= i64::MAX
}

/// The absolute value of `x`.
pub open spec fn magnitude(x: int) -> int {
    if x < 0 {
        -x
    } else {
        x
    }
}

/// The smaller of `a` and `b`.
pub open spec fn least(a: int, b: int) -> int {
    if a <= b {
        a
    } else {
        b
    }
}

/// The larger of `a` and `b`.
pub open spec fn greatest(a: int, b: int) -> int {
    if a <= b {
        b
    } else {
        a
    }
}

/// The quotient of `n` by a positive `d`, rounded toward zero.
pub open spec fn trunc_div(n: int, d: int) -> int {
    if n >= 0 {
        n / d
    } else {
        -((-n) / d)
    }
}

/// The point of `[lo, hi]` nearest to `x`.
pub open spec fn clamp(x: int, lo: int, hi: int) -> int {
    if x < lo {
        lo
    } else if x > hi {
        hi
    } else {
        x
    }
}

/// `amount` scaled by `bps` basis points, rounded toward zero.
pub open spec fn bps_of(amount: int, bps: int) -> int {
    trunc_div(amount * bps, BPS_DENOM_I128 as int)
}

/// What `base` micro-base are worth at the Q64.64 price `price_q64`, each division rounded
/// toward zero.
pub open spec fn usdc_value(base: int, price_q64: int) -> int {
    trunc_div(trunc_div(base * price_q64, Q64 as int), BASE_Q as int)
}

/// `bps` basis points as a Q64.64 fraction, rounded toward zero.
pub open spec fn bps_as_q64(bps: int) -> int {
    trunc_div(bps * Q64, BPS_DENOM_I128 as int)
}

/// The Q64.64 price of the reserves: quote per base, rounded down.
pub open spec fn mark_price(base: int, quote: int) -> int {
    quote * Q64 / base
}

/// When the reserves have no mark price.
pub open spec fn mark_price_refusal(base: int, quote: int) -> Option<TariffError> {
    if base <= 0 || quote <= 0 {
        Some(TariffError::InvalidReserve)
    } else {
        error::overflow_unless(in_i128(quote * Q64))
    }
}

/// The factor that the spread puts on an execution price, in basis points: above one whole for
/// a long, below it for a short.
pub open spec fn spread_factor_bps(spread_bps: u16, side: u8) -> int {
    if side == 0 {
        BPS_DENOM_I128 + spread_bps
    } else {
        BPS_DENOM_I128 - spread_bps
    }
}

/// The execution price with the spread on it.
pub open spec fn spread_price(price_q64: int, spread_bps: u16, side: u8) -> int {
    bps_of(price_q64, spread_factor_bps(spread_bps, side))
}

/// When the spread cannot be put on a price.
pub open spec fn spread_price_refusal(
    price_q64: int,
    spread_bps: u16,
    side: u8,
) -> Option<TariffError> {
    if spread_bps > 10_000 {
        Some(TariffError::InvalidBps)
    } else {
        error::overflow_unless(in_i128(price_q64 * spread_factor_bps(spread_bps, side)))
    }
}

/// Clamps `x` to `[lo, hi]`.
pub fn clamp_i128(x: i128, lo: i128, hi: i128) -> (res: Result<i128, TariffError>)
    ensures
        error::amount_outcome(
            res,
            error::overflow_unless(lo <= hi),
            clamp(x as int, lo as int, hi as int),
        ),
{
    if lo > hi {
        return Err(TariffError::MathOverflow);
    }
    Ok(
        if x < lo {
            lo
        } else if x > hi {
            hi
        } else {
            x
        },
    )
}

/// The absolute value of `x`.
pub fn i128_abs(x: i128) -> (res: Result<i128, TariffError>)
    ensures
        error::amount_outcome(res, error::overflow_unless(x != i128::MIN), magnitude(x as int)),
{
    if x == i128::MIN {
        return Err(TariffError::MathOverflow);
    }
    Ok(
        if x < 0 {
            -x
        } else {
            x
        },
    )
}

/// The negation of `x`.
pub fn i128_neg(x: i128) -> (res: Result<i128, TariffError>)
    ensures
        error::amount_outcome(res, error::overflow_unless(x != i128::MIN), -x),
{
    0i128.checked_sub(x).ok_or(TariffError::MathOverflow)
}

/// Narrows `x` to a `u64`.
pub fn i128_to_u64(x: i128) -> (res: Result<u64, TariffError>)
    ensures
        error::outcome(res, error::overflow_unless(0 <= x <= u64::MAX), x as u64),
{
    if x < 0 {
        return Err(TariffError::MathOverflow);
    }
    if x > u64::MAX as i128 {
        return Err(TariffError::MathOverflow);
    }
    Ok(x as u64)
}

/// Narrows `x` to an `i64`.
pub fn i128_to_i64(x: i128) -> (res: Result<i64, TariffError>)
    ensures
        error::outcome(res, error::overflow_unless(in_i64(x as int)), x as i64),
{
    if x < i64::MIN as i128 {
        return Err(TariffError::MathOverflow);
    }
    if x > i64::MAX as i128 {
        return Err(TariffError::MathOverflow);
    }
    Ok(x as i64)
}

/// Converts basis points to a Q64.64 fraction.
pub fn bps_i128_to_q64(bps: i128) -> (res: Result<i128, TariffError>)
    ensures
        error::amount_outcome(
            res,
            error::overflow_unless(in_i128(bps * Q64)),
            bps_as_q64(bps as int),
        ),
{
    let num: i128 = bps.checked_mul(Q64).ok_or(TariffError::MathOverflow)?;
    num.checked_div(BPS_DENOM_I128).ok_or(TariffError::MathOverflow)
}

/// `amount` scaled by `bps` basis points.
pub fn amount_bps(amount: i128, bps: u16) -> (res: Result<i128, TariffError>)
    ensures
        error::amount_outcome(
            res,
            error::overflow_unless(in_i128(amount * bps)),
            bps_of(amount as int, bps as int),
        ),
{
    let num: i128 = amount.checked_mul(bps as i128).ok_or(TariffError::MathOverflow)?;
    num.checked_div(BPS_DENOM_I128).ok_or(TariffError::MathOverflow)
}

/// The mark price of a pair of reserves.
pub fn mark_price_q64_from_reserves(base: i128, quote: i128) -> (res: Result<i128, TariffError>)
    ensures
        error::amount_outcome(
            res,
            mark_price_refusal(base as int, quote as int),
            mark_price(base as int, quote as int),
        ),
{
    if base <= 0 {
        return Err(TariffError::InvalidReserve);
    }
    if quote <= 0 {
        return Err(TariffError::InvalidReserve);
    }
    let num: i128 = quote.checked_mul(Q64).ok_or(TariffError::MathOverflow)?;
    proof {
        lemma_quotient_range(num as int, base as int);
    }
    num.checked_div(base).ok_or(TariffError::MathOverflow)
}

/// Puts the spread on an execution price: a long pays `1 + spread`, a short gets `1 - spread`.
pub fn apply_spread_q64(exec_price_q64: i128, spread_bps: u16, side: u8) -> (res: Result<
    i128,
    TariffError,
>)
    ensures
        error::amount_outcome(
            res,
            spread_price_refusal(exec_price_q64 as int, spread_bps, side),
            spread_price(exec_price_q64 as int, spread_bps, side),
        ),
{
    if spread_bps > 10_000 {
        return Err(TariffError::InvalidBps);
    }
    let spread: i128 = spread_bps as i128;
    let mult_bps: i128 = if side == 0 {
        BPS_DENOM_I128 + spread
    } else {
        BPS_DENOM_I128 - spread
    };
    let num: i128 = exec_price_q64.checked_mul(mult_bps).ok_or(TariffError::MathOverflow)?;
    num.checked_div(BPS_DENOM_I128).ok_or(TariffError::MathOverflow)
}

/// What `base_abs` micro-base are worth at `price_q64`, in micro-USDC.
pub fn base_times_price_to_usdc_micro(base_abs: i128, price_q64: i128) -> (res: Result<
    i128,
    TariffError,
>)
    ensures
        error::amount_outcome(
            res,
            error::overflow_unless(in_i128(base_abs * price_q64)),
            usdc_value(base_abs as int, price_q64 as int),
        ),
{
    let num: i128 = base_abs.checked_mul(price_q64).ok_or(TariffError::MathOverflow)?;
    let q: i128 = num.checked_div(Q64).ok_or(TariffError::MathOverflow)?;
    q.checked_div(BASE_Q).ok_or(TariffError::MathOverflow)
}

/// Whether both are positive or both are negative.
pub fn same_sign_nonzero(a: i128, b: i128) -> (res: bool)
    ensures
        res == ((a > 0 && b > 0) || (a < 0 && b < 0)),
{
    (a > 0 && b > 0) || (a < 0 && b < 0)
}

/// The value of a product that fits an `i128` is far below the range of a `u64`.
pub proof fn lemma_usdc_value_range(base: int, price_q64: int)
    requires
        in_i128(base * price_q64),
    ensures
        -9_223_372_036_854 <= usdc_value(base, price_q64) <= 9_223_372_036_854,
{
}

/// The value of a nonnegative amount at a nonnegative price is not negative.
pub proof fn lemma_usdc_value_nonnegative(base: int, price_q64: int)
    requires
        base >= 0,
        price_q64 >= 0,
    ensures
        usdc_value(base, price_q64) >= 0,
{
    assert(base * price_q64 >= 0) by (nonlinear_arith)
        requires
            base >= 0,
            price_q64 >= 0,
    ;
}

/// Nothing is worth nothing.
pub proof fn lemma_usdc_value_of_nothing(price_q64: int)
    ensures
        usdc_value(0, price_q64) == 0,
{
    assert(0 * price_q64 == 0) by (nonlinear_arith);
}

/// Basis points of a value fit an `i128` before they are divided.
pub proof fn lemma_bps_of_fits(amount: int, bps: u16)
    requires
        -9_223_372_036_854 <= amount <= 9_223_372_036_854,
    ensures
        in_i128(amount * bps),
{
    assert(-9_223_372_036_854 * 65_535 <= amount * bps <= 9_223_372_036_854 * 65_535)
        by (nonlinear_arith)
        requires
            -9_223_372_036_854 <= amount <= 9_223_372_036_854,
            0 <= bps <= 65_535,
    ;
}

/// A fee on a value is not negative and fits a `u64` even when scaled by basis points.
pub proof fn lemma_fee_range(amount: int, bps: u16)
    requires
        0 <= amount <= 9_223_372_036_854,
    ensures
        in_i128(amount * bps),
        0 <= bps_of(amount, bps as int) <= 60_445_368_643_524,
{
    assert(0 <= amount * bps <= 9_223_372_036_854 * 65_535) by (nonlinear_arith)
        requires
            0 <= amount <= 9_223_372_036_854,
            0 <= bps <= 65_535,
    ;
}

/// A fee scaled by basis points fits a `u64`.
pub proof fn lemma_share_range(fee: u64, bps: u16)
    requires
        fee <= 60_445_368_643_524,
    ensures
        0 <= fee * bps <= u64::MAX,
{
    assert(0 <= fee * bps <= 60_445_368_643_524 * 65_535) by (nonlinear_arith)
        requires
            0 <= fee <= 60_445_368_643_524,
            0 <= bps <= 65_535,
    ;
}

/// A quotient of nonnegative numbers lies between zero and its numerator.
pub proof fn lemma_quotient_range(n: int, d: int)
    requires
        n >= 0,
        d > 0,
    ensures
        0 <= n / d <= n,
{
    assert(0 <= n / d <= n) by (nonlinear_arith)
        requires
            n >= 0,
            d > 0,
    ;
}

} // verus!
