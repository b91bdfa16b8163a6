//! The reasons for which an instruction is refused.

use vstd::prelude::*;

verus! {

/// Why an instruction was refused. A refused instruction changes no account.
#[derive(Clone, Copy, Debug, PartialEq, Eq, Structural)]
pub enum TariffError {
    /// The signer is not the one the account names.
    Unauthorized,
    /// An amount does not fit its integer type.
    MathOverflow,
    /// An amount is zero or negative.
    InvalidAmount,
    /// The side is neither long (0) nor short (1).
    InvalidSide,
    /// A basis-point parameter is out of range.
    InvalidBps,
    /// A configuration parameter is out of range.
    InvalidConfig,
    /// The oracle's validity window has ended.
    OracleStale,
    /// The oracle's minimum update interval has not passed.
    OracleUpdateTooSoon,
    /// The new baseline is too far from the old one.
    BaselineJumpTooLarge,
    /// An oracle table has no free slot.
    ArrayFull,
    /// A reserve is not positive.
    InvalidReserve,
    /// The virtual market cannot fill the trade.
    InsufficientLiquidity,
    /// A token account holds another mint.
    InvalidMint,
    /// A token account belongs to another authority.
    InvalidTokenOwner,
    /// The margin account belongs to another market.
    InvalidMarket,
    /// The market reads another oracle.
    InvalidOracle,
    /// The collateral does not cover the amount.
    InsufficientCollateral,
    /// Equity would fall below the initial margin requirement.
    MarginTooLow,
    /// The maintenance margin exceeds the initial margin.
    BadMarginParams,
    /// Open interest or skew would exceed its limit.
    RiskLimit,
    /// Equity is not below the maintenance requirement.
    NotLiquidatable,
    /// There is no position to close.
    NoPosition,
    /// Reduce-only mode: the trade does not reduce the position.
    ReduceOnly,
    /// The market is paused.
    Paused,
    /// The trade is below the minimum size.
    TradeTooSmall,
    /// The trade moves the mark price too far.
    PriceImpactTooHigh,
    /// The price feed account is not the market's.
    InvalidPythFeed,
    /// The price feed account could not be read.
    PythLoadFailed,
    /// The price feed has no price within the staleness bound.
    PythStale,
    /// The price is zero or negative.
    PythBadPrice,
    /// The confidence interval is too wide for the price.
    PythConfidenceTooWide,
    /// The publish time moved backwards.
    PythNonMonotonic,
}

/// `res` is the refusal where there is one, and otherwise `Ok` of `value`.
pub open spec fn outcome<T>(
    res: Result<T, TariffError>,
    refusal: Option<TariffError>,
    value: T,
) -> bool {
    match refusal {
        Some(e) => res == Err::<T, TariffError>(e),
        None => res == Ok::<T, TariffError>(value),
    }
}

/// `res` is the refusal where there is one, and otherwise `Ok` of the integer `value`.
pub open spec fn amount_outcome(
    res: Result<i128, TariffError>,
    refusal: Option<TariffError>,
    value: int,
) -> bool {
    match refusal {
        Some(e) => res == Err::<i128, TariffError>(e),
        None => res is Ok && res->Ok_0 == value,
    }
}

/// `MathOverflow`, unless `fits`.
pub open spec fn overflow_unless(fits: bool) -> Option<TariffError> {
    if fits {
        None
    } else {
        Some(TariffError::MathOverflow)
    }
}

} // verus!
