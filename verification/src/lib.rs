//! Pricing-and-liquidity core of a binary-outcome prediction-market AMM.
//!
//! The library keeps the reserves of two outcome tokens (YES / NO) and a
//! stable settlement asset, mints and burns liquidity-provider and outcome
//! claims, quotes swaps under two pricing models (constant product and a
//! cost-function curve), settles a market and computes pro-rata payouts.
//! All arithmetic is integer-only and overflow-checked: every operation
//! either returns the exact result or reports an error, and a failed
//! operation leaves the market unchanged.

pub mod errors;
pub mod fixed;
pub mod cpmm;
pub mod market;
pub mod liquidity;
pub mod lmsr;
pub mod swap;
pub mod laws;
