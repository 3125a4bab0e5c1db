//! The error taxonomy of the market engine.
//!
//! Every operation detects its failure before any state is mutated, so an
//! error always means "nothing happened"; the variant says exactly why.

use vstd::prelude::*;

verus! {

/// Why a market operation was rejected.
#[derive(Clone, Copy, Debug, PartialEq, Eq, Structural)]
pub enum MarketError {
    /// A fee percentage was outside the accepted range.
    FeePercentErr,
    /// An unspecific failure.
    DefaultError,
    /// The caller-supplied deadline has passed.
    OfferExpired,
    /// The operation was attempted while the pool is paused.
    PoolLocked,
    /// A realized amount violated the caller's slippage bound.
    SlippageExceeded,
    /// Checked arithmetic overflowed.
    Overflow,
    /// Checked arithmetic underflowed.
    Underflow,
    /// The side selector is invalid in this context.
    InvalidToken,
    /// A computation would divide by a zero reserve, or the pool cannot
    /// deliver the requested amount.
    NoLiquidityInPool,
    /// A derivation bump was wrong.
    BumpError,
    /// A curve-internal computation failed.
    CurveError,
    /// The trading fee is greater than 100%.
    InvalidFee,
    /// The caller is not the market's administrative authority.
    InvalidAuthority,
    /// The market has no administrative authority, so admin operations are
    /// permanently impossible.
    NoAuthoritySet,
    /// An amount is invalid for the operation.
    InvalidAmount,
    /// A precision argument is invalid.
    InvalidPrecision,
    /// The caller lacks the balance the operation needs.
    InsufficientBalance,
    /// A required amount is zero.
    ZeroBalance,
    /// The market is already settled.
    MarketAlreadySettled,
    /// The market is not settled yet.
    MarketNotSettled,
    /// The caller is not authorized.
    Unauthorized,
    /// Settlement was attempted before the market's end time.
    MarketNotEnded,
    /// A fixed-point computation overflowed.
    MathOverflow,
    /// A fixed-point computation underflowed.
    MathUnderflow,
    /// A share quantity violated a curve invariant.
    InvalidShares,
    /// A computed price violated a curve invariant.
    InvalidPrice,
    /// A computed cost violated a curve invariant.
    InvalidCost,
}

} // verus!
