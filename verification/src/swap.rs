//! Single-sided trades against the market's pricing curve.
//!
//! A swap validates its entry conditions, asks the curve for the output,
//! enforces the caller's slippage bound, and moves the reserves to the
//! post-trade values in one step, so that the next operation in the same
//! atomic unit observes the updated curve.

use vstd::prelude::*;

use crate::cpmm::{constant_product_swap, cp_out_spec, effective_in_spec};
use crate::errors::MarketError;
use crate::lmsr::{lmsr_swap_output, spec_lmsr_output};
use crate::market::{CurveKind, Market, Side};

verus! {

/// Whether a trade spends the stable asset to acquire outcome tokens, or
/// sells outcome tokens back for the stable asset.
#[derive(Clone, Copy, Debug, PartialEq, Eq, Structural)]
pub enum TradeDirection {
    Buy,
    Sell,
}

/// The market with one outcome side's reserve replaced.
pub open spec fn with_side_reserve(m: Market, side: Side, value: u64) -> Market {
    match side {
        Side::Yes => Market { reserve_yes: value, ..m },
        Side::No => Market { reserve_no: value, ..m },
    }
}

/// What `Market::swap` does.
///
/// After the entry checks — pause, settlement, deadline, zero amount — the
/// configured curve quotes the output for `amount_in`; an output below
/// `min_out` rejects the trade. On a buy the full input enters the stable
/// reserve and the output leaves the side's reserve; on a sell the input
/// enters the side's reserve and the output leaves the stable reserve. A
/// trade the pool cannot deliver fails with `NoLiquidityInPool`.
pub open spec fn spec_swap(
    m: Market,
    side: Side,
    direction: TradeDirection,
    amount_in: u64,
    min_out: u64,
    now: i64,
    expiration: i64,
) -> Result<(Market, u64), MarketError> {
    if m.locked {
        Err(MarketError::PoolLocked)
    } else if m.settled {
        Err(MarketError::MarketAlreadySettled)
    } else if now > expiration {
        Err(MarketError::OfferExpired)
    } else if amount_in == 0 {
        Err(MarketError::ZeroBalance)
    } else {
        match m.curve {
            CurveKind::ConstantProduct => {
                let reserve_in = if direction is Buy {
                    m.reserve_stable
                } else {
                    m.spec_reserve_of(side)
                };
                let reserve_out = if direction is Buy {
                    m.spec_reserve_of(side)
                } else {
                    m.reserve_stable
                };
                if reserve_in == 0 || reserve_out == 0 {
                    Err(MarketError::NoLiquidityInPool)
                } else {
                    let out = cp_out_spec(
                        reserve_in,
                        reserve_out,
                        effective_in_spec(amount_in, m.fee),
                    ) as u64;
                    if out < min_out {
                        Err(MarketError::SlippageExceeded)
                    } else if reserve_in + amount_in > u64::MAX {
                        Err(MarketError::Overflow)
                    } else {
                        let grown = (reserve_in + amount_in) as u64;
                        let shrunk = (reserve_out - out) as u64;
                        let m2 = if direction is Buy {
                            with_side_reserve(
                                Market { reserve_stable: grown, ..m },
                                side,
                                shrunk,
                            )
                        } else {
                            with_side_reserve(
                                Market { reserve_stable: shrunk, ..m },
                                side,
                                grown,
                            )
                        };
                        Ok((m2, out))
                    }
                }
            },
            CurveKind::CostFunction(b) => {
                if m.supply_lp == 0 {
                    Err(MarketError::NoLiquidityInPool)
                } else {
                    match spec_lmsr_output(
                        b,
                        amount_in,
                        m.reserve_yes,
                        m.reserve_no,
                        direction is Buy,
                        side is Yes,
                        m.fee,
                    ) {
                        Err(e) => Err(e),
                        Ok(out) => if out < min_out {
                            Err(MarketError::SlippageExceeded)
                        } else if direction is Buy {
                            if out > m.spec_reserve_of(side) {
                                Err(MarketError::NoLiquidityInPool)
                            } else if m.reserve_stable + amount_in > u64::MAX {
                                Err(MarketError::Overflow)
                            } else {
                                let m2 = with_side_reserve(
                                    Market {
                                        reserve_stable: (m.reserve_stable + amount_in) as u64,
                                        ..m
                                    },
                                    side,
                                    (m.spec_reserve_of(side) - out) as u64,
                                );
                                Ok((m2, out))
                            }
                        } else {
                            if out > m.reserve_stable {
                                Err(MarketError::NoLiquidityInPool)
                            } else if m.spec_reserve_of(side) + amount_in > u64::MAX {
                                Err(MarketError::Overflow)
                            } else {
                                let m2 = with_side_reserve(
                                    Market {
                                        reserve_stable: (m.reserve_stable - out) as u64,
                                        ..m
                                    },
                                    side,
                                    (m.spec_reserve_of(side) + amount_in) as u64,
                                );
                                Ok((m2, out))
                            }
                        },
                    }
                }
            },
        }
    }
}

impl Market {
    /// Trade `amount_in` against the market's curve.
    ///
    /// Returns the realized output amount; fails — leaving the market
    /// unchanged — while paused or settled, past the deadline, on a zero
    /// amount, when the output falls below `min_out`, or when the pool
    /// cannot price or deliver the trade. On success the reserves advance
    /// exactly as [`spec_swap`] states.
    pub fn swap(
        &mut self,
        side: Side,
        direction: TradeDirection,
        amount_in: u64,
        min_out: u64,
        now: i64,
        expiration: i64,
    ) -> (r: Result<u64, MarketError>)
        requires
            old(self).well_formed(),
        ensures
            match spec_swap(*old(self), side, direction, amount_in, min_out, now, expiration) {
                Ok(p) => r == Ok::<u64, MarketError>(p.1) && *final(self) == p.0,
                Err(e) => r == Err::<u64, MarketError>(e) && *final(self) == *old(self),
            },
            final(self).well_formed(),
            final(self).settled == old(self).settled,
            old(self).settled ==> r is Err,
            old(self).curve is ConstantProduct
                ==> final(self).reserve_stable * final(self).spec_reserve_of(side)
                    >= old(self).reserve_stable * old(self).spec_reserve_of(side),
    {
        proof {
            if self.curve is ConstantProduct && self.reserve_stable >= 1
                && self.spec_reserve_of(side) >= 1 {
                if direction is Buy {
                    crate::cpmm::lemma_swap_preserves_product(
                        self.reserve_stable,
                        self.spec_reserve_of(side),
                        amount_in,
                        self.fee,
                    );
                } else {
                    let rin = self.spec_reserve_of(side);
                    let rout = self.reserve_stable;
                    crate::cpmm::lemma_swap_preserves_product(rin, rout, amount_in, self.fee);
                    let out = crate::cpmm::cp_out_spec(
                        rin,
                        rout,
                        crate::cpmm::effective_in_spec(amount_in, self.fee),
                    );
                    assert((rout - out) * (rin + amount_in) == (rin + amount_in) * (rout - out)
                        && rout * rin == rin * rout) by (nonlinear_arith);
                }
            }
        }
        if self.locked {
            return Err(MarketError::PoolLocked);
        }
        if self.settled {
            return Err(MarketError::MarketAlreadySettled);
        }
        if now > expiration {
            return Err(MarketError::OfferExpired);
        }
        if amount_in == 0 {
            return Err(MarketError::ZeroBalance);
        }
        match self.curve {
            CurveKind::ConstantProduct => {
                let side_reserve: u64 = match side {
                    Side::Yes => self.reserve_yes,
                    Side::No => self.reserve_no,
                };
                let reserve_in: u64 = match direction {
                    TradeDirection::Buy => self.reserve_stable,
                    TradeDirection::Sell => side_reserve,
                };
                let reserve_out: u64 = match direction {
                    TradeDirection::Buy => side_reserve,
                    TradeDirection::Sell => self.reserve_stable,
                };
                let out = constant_product_swap(reserve_in, reserve_out, amount_in, self.fee)?;
                if out < min_out {
                    return Err(MarketError::SlippageExceeded);
                }
                let grown = match reserve_in.checked_add(amount_in) {
                    Some(v) => v,
                    None => { return Err(MarketError::Overflow); },
                };
                let shrunk: u64 = reserve_out - out;
                match direction {
                    TradeDirection::Buy => {
                        self.reserve_stable = grown;
                        match side {
                            Side::Yes => { self.reserve_yes = shrunk; },
                            Side::No => { self.reserve_no = shrunk; },
                        }
                    },
                    TradeDirection::Sell => {
                        self.reserve_stable = shrunk;
                        match side {
                            Side::Yes => { self.reserve_yes = grown; },
                            Side::No => { self.reserve_no = grown; },
                        }
                    },
                }
                Ok(out)
            },
            CurveKind::CostFunction(b) => {
                if self.supply_lp == 0 {
                    return Err(MarketError::NoLiquidityInPool);
                }
                let is_buying = match direction {
                    TradeDirection::Buy => true,
                    TradeDirection::Sell => false,
                };
                let is_yes = match side {
                    Side::Yes => true,
                    Side::No => false,
                };
                let out = lmsr_swap_output(
                    b,
                    amount_in,
                    self.reserve_yes,
                    self.reserve_no,
                    is_buying,
                    is_yes,
                    self.fee,
                )?;
                if out < min_out {
                    return Err(MarketError::SlippageExceeded);
                }
                let side_reserve: u64 = match side {
                    Side::Yes => self.reserve_yes,
                    Side::No => self.reserve_no,
                };
                match direction {
                    TradeDirection::Buy => {
                        if out > side_reserve {
                            return Err(MarketError::NoLiquidityInPool);
                        }
                        let grown = match self.reserve_stable.checked_add(amount_in) {
                            Some(v) => v,
                            None => { return Err(MarketError::Overflow); },
                        };
                        self.reserve_stable = grown;
                        match side {
                            Side::Yes => { self.reserve_yes = side_reserve - out; },
                            Side::No => { self.reserve_no = side_reserve - out; },
                        }
                        Ok(out)
                    },
                    TradeDirection::Sell => {
                        if out > self.reserve_stable {
                            return Err(MarketError::NoLiquidityInPool);
                        }
                        let grown = match side_reserve.checked_add(amount_in) {
                            Some(v) => v,
                            None => { return Err(MarketError::Overflow); },
                        };
                        self.reserve_stable = self.reserve_stable - out;
                        match side {
                            Side::Yes => { self.reserve_yes = grown; },
                            Side::No => { self.reserve_no = grown; },
                        }
                        Ok(out)
                    },
                }
            },
        }
    }
}

} // verus!
