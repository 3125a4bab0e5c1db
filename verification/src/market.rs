//! The market record and its administrative and settlement operations.
//!
//! A `Market` is one prediction question: reserves of the two outcome tokens
//! and the stable settlement asset, the outstanding claim and LP supplies,
//! the trading fee, the pause flag and the settlement state. Every operation
//! validates its preconditions first and either applies its whole effect or
//! leaves the market untouched.

use vstd::prelude::*;
use vstd::string::StringSliceAdditionalSpecFns;

use crate::errors::MarketError;
use crate::fixed::{mul_div, mul_div_spec, FEE_DENOMINATOR};

verus! {

/// One of the two outcome sides of a binary market.
#[derive(Clone, Copy, Debug, PartialEq, Eq, Structural)]
pub enum Side {
    Yes,
    No,
}

/// The pricing model a market was created with.
///
/// The cost-function variant carries the liquidity-depth parameter `b`,
/// denominated in smallest units like every other quantity.
#[derive(Clone, Copy, Debug, PartialEq, Eq, Structural)]
pub enum CurveKind {
    ConstantProduct,
    CostFunction(u64),
}

/// Longest accepted market name, in bytes.
pub const MAX_NAME_LEN: usize = 32;

/// Whether a market name fits the stored-record bound, measured in bytes as
/// `str::len` reports them.
pub open spec fn name_within_bound(name: &str) -> bool {
    name.spec_bytes().len() as usize <= MAX_NAME_LEN
}

/// One prediction market.
///
/// Reserves are the pool's balances; supplies are the outstanding claim and
/// LP tokens held collectively by users. `total_liquidity` is a bookkeeping
/// counter of contributed stable liquidity, not a balance.
#[derive(Clone, Debug)]
pub struct Market {
    pub market_name: String,
    pub seed: u64,
    pub fee: u16,
    pub end_time: i64,
    pub authority: Option<u64>,
    pub locked: bool,
    pub settled: bool,
    pub resolved_outcome: Option<Side>,
    pub total_liquidity: u64,
    pub curve: CurveKind,
    pub reserve_yes: u64,
    pub reserve_no: u64,
    pub reserve_stable: u64,
    pub supply_yes: u64,
    pub supply_no: u64,
    pub supply_lp: u64,
}

impl Market {
    /// The structural invariant every operation preserves: the fee is a
    /// valid basis-point value, the resolved outcome is recorded exactly
    /// when the market is settled, and the LP supply is zero exactly when
    /// all three reserves are empty.
    pub open spec fn well_formed(self) -> bool {
        &&& self.fee <= FEE_DENOMINATOR
        &&& self.settled <==> self.resolved_outcome is Some
        &&& (self.supply_lp == 0 <==> self.reserve_yes == 0 && self.reserve_no == 0
            && self.reserve_stable == 0)
    }

    /// The reserve backing one outcome side.
    pub open spec fn spec_reserve_of(self, side: Side) -> u64 {
        match side {
            Side::Yes => self.reserve_yes,
            Side::No => self.reserve_no,
        }
    }

    /// The outstanding claim supply of one outcome side.
    pub open spec fn spec_supply_of(self, side: Side) -> u64 {
        match side {
            Side::Yes => self.supply_yes,
            Side::No => self.supply_no,
        }
    }

    /// Create a new open market with empty reserves and supplies.
    ///
    /// Rejects a fee above 100%, an end time that is not in the future, and
    /// a name longer than [`MAX_NAME_LEN`] bytes.
    pub fn initialize(
        seed: u64,
        name: &str,
        fee: u16,
        end_time: i64,
        authority: Option<u64>,
        curve: CurveKind,
        now: i64,
    ) -> (r: Result<Market, MarketError>)
        ensures
            fee > FEE_DENOMINATOR ==> r == Err::<Market, MarketError>(MarketError::InvalidFee),
            fee <= FEE_DENOMINATOR && end_time <= now
                ==> r == Err::<Market, MarketError>(MarketError::OfferExpired),
            fee <= FEE_DENOMINATOR && end_time > now && !name_within_bound(name)
                ==> r == Err::<Market, MarketError>(MarketError::InvalidAmount),
            fee <= FEE_DENOMINATOR && end_time > now && name_within_bound(name)
                ==> (r matches Ok(m)
                    && m.market_name@ == name@
                    && m.seed == seed
                    && m.fee == fee
                    && m.end_time == end_time
                    && m.authority == authority
                    && m.locked == false
                    && m.settled == false
                    && m.resolved_outcome == Option::<Side>::None
                    && m.total_liquidity == 0
                    && m.curve == curve
                    && m.reserve_yes == 0
                    && m.reserve_no == 0
                    && m.reserve_stable == 0
                    && m.supply_yes == 0
                    && m.supply_no == 0
                    && m.supply_lp == 0
                    && m.well_formed()),
    {
        if fee as u64 > FEE_DENOMINATOR {
            return Err(MarketError::InvalidFee);
        }
        if end_time <= now {
            return Err(MarketError::OfferExpired);
        }
        if name.len() > MAX_NAME_LEN {
            return Err(MarketError::InvalidAmount);
        }
        Ok(Market {
            market_name: name.to_owned(),
            seed,
            fee,
            end_time,
            authority,
            locked: false,
            settled: false,
            resolved_outcome: None,
            total_liquidity: 0,
            curve,
            reserve_yes: 0,
            reserve_no: 0,
            reserve_stable: 0,
            supply_yes: 0,
            supply_no: 0,
            supply_lp: 0,
        })
    }

    /// What `lock` does: pause the pool, if the caller is the authority.
    pub open spec fn spec_lock(self, caller: u64) -> Result<Market, MarketError> {
        match self.authority {
            None => Err(MarketError::NoAuthoritySet),
            Some(a) => if caller != a {
                Err(MarketError::InvalidAuthority)
            } else {
                Ok(Market { locked: true, ..self })
            },
        }
    }

    /// Pause the pool. Only the market's authority may do this; a market
    /// without an authority can never be locked or unlocked.
    pub fn lock(&mut self, caller: u64) -> (r: Result<(), MarketError>)
        ensures
            match old(self).spec_lock(caller) {
                Ok(m2) => r == Ok::<(), MarketError>(()) && *final(self) == m2,
                Err(e) => r == Err::<(), MarketError>(e) && *final(self) == *old(self),
            },
            old(self).well_formed() ==> final(self).well_formed(),
            final(self).settled == old(self).settled,
    {
        match self.authority {
            None => Err(MarketError::NoAuthoritySet),
            Some(a) => {
                if caller != a {
                    Err(MarketError::InvalidAuthority)
                } else {
                    self.locked = true;
                    Ok(())
                }
            },
        }
    }

    /// What `unlock` does: resume the pool, if the caller is the authority.
    pub open spec fn spec_unlock(self, caller: u64) -> Result<Market, MarketError> {
        match self.authority {
            None => Err(MarketError::NoAuthoritySet),
            Some(a) => if caller != a {
                Err(MarketError::InvalidAuthority)
            } else {
                Ok(Market { locked: false, ..self })
            },
        }
    }

    /// Resume the pool. Only the market's authority may do this.
    pub fn unlock(&mut self, caller: u64) -> (r: Result<(), MarketError>)
        ensures
            match old(self).spec_unlock(caller) {
                Ok(m2) => r == Ok::<(), MarketError>(()) && *final(self) == m2,
                Err(e) => r == Err::<(), MarketError>(e) && *final(self) == *old(self),
            },
            old(self).well_formed() ==> final(self).well_formed(),
            final(self).settled == old(self).settled,
    {
        match self.authority {
            None => Err(MarketError::NoAuthoritySet),
            Some(a) => {
                if caller != a {
                    Err(MarketError::InvalidAuthority)
                } else {
                    self.locked = false;
                    Ok(())
                }
            },
        }
    }

    /// What `settle` does: the only transition out of the open state.
    ///
    /// It fails with `PoolLocked` while paused, with `MarketAlreadySettled`
    /// on a second call, and with `MarketNotEnded` before the end time; on
    /// success it records the winning outcome, permanently.
    pub open spec fn spec_settle(self, outcome: Side, now: i64) -> Result<Market, MarketError> {
        if self.locked {
            Err(MarketError::PoolLocked)
        } else if self.settled {
            Err(MarketError::MarketAlreadySettled)
        } else if now <= self.end_time {
            Err(MarketError::MarketNotEnded)
        } else {
            Ok(Market { settled: true, resolved_outcome: Some(outcome), ..self })
        }
    }

    /// Resolve the market to `outcome`. Valid only once, only after the end
    /// time, and only while not paused; reserves are frozen afterwards.
    pub fn settle(&mut self, outcome: Side, now: i64) -> (r: Result<(), MarketError>)
        ensures
            match old(self).spec_settle(outcome, now) {
                Ok(m2) => r == Ok::<(), MarketError>(()) && *final(self) == m2,
                Err(e) => r == Err::<(), MarketError>(e) && *final(self) == *old(self),
            },
            old(self).well_formed() ==> final(self).well_formed(),
            old(self).settled ==> final(self).settled,
    {
        if self.locked {
            return Err(MarketError::PoolLocked);
        }
        if self.settled {
            return Err(MarketError::MarketAlreadySettled);
        }
        if now <= self.end_time {
            return Err(MarketError::MarketNotEnded);
        }
        self.settled = true;
        self.resolved_outcome = Some(outcome);
        Ok(())
    }

    /// What `claim` returns: the holder's pro-rata share of the stable
    /// reserve, `floor(holding * reserve_stable / supply)` of the winning
    /// side's outstanding supply.
    pub open spec fn spec_claim(self, side: Side, holding: u64) -> Result<u64, MarketError> {
        if self.locked {
            Err(MarketError::PoolLocked)
        } else if !self.settled {
            Err(MarketError::MarketNotSettled)
        } else if self.resolved_outcome != Some(side) {
            Err(MarketError::InvalidToken)
        } else if holding == 0 {
            Err(MarketError::InsufficientBalance)
        } else {
            let supply = self.spec_supply_of(side);
            if supply == 0 || mul_div_spec(holding, self.reserve_stable, supply) > u64::MAX {
                Err(MarketError::Overflow)
            } else {
                Ok(mul_div_spec(holding, self.reserve_stable, supply) as u64)
            }
        }
    }

    /// Compute a winner's payout for a holding of `holding` outcome tokens.
    ///
    /// Valid only on a settled market and only for the resolved side; the
    /// market itself is never mutated — the caller burns the holding and
    /// pays the returned amount out of the vault. Whenever the holding does
    /// not exceed the side's outstanding supply, the payout cannot exceed
    /// the stable reserve.
    pub fn claim(&self, side: Side, holding: u64) -> (r: Result<u64, MarketError>)
        ensures
            r == self.spec_claim(side, holding),
            holding <= self.spec_supply_of(side)
                ==> (r matches Ok(p) ==> p <= self.reserve_stable),
    {
        if self.locked {
            return Err(MarketError::PoolLocked);
        }
        if !self.settled {
            return Err(MarketError::MarketNotSettled);
        }
        let winning = match self.resolved_outcome {
            Some(w) => w,
            None => { return Err(MarketError::InvalidToken); },
        };
        if winning != side {
            return Err(MarketError::InvalidToken);
        }
        if holding == 0 {
            return Err(MarketError::InsufficientBalance);
        }
        let supply: u64 = match side {
            Side::Yes => self.supply_yes,
            Side::No => self.supply_no,
        };
        if supply == 0 {
            return Err(MarketError::Overflow);
        }
        let payout = mul_div(holding, self.reserve_stable, supply)?;
        proof {
            if holding <= supply {
                assert(mul_div_spec(holding, self.reserve_stable, supply)
                    <= self.reserve_stable) by (nonlinear_arith)
                    requires
                        supply >= 1,
                        0 <= holding <= supply,
                        mul_div_spec(holding, self.reserve_stable, supply)
                            == (holding * self.reserve_stable) / (supply as int),
                ;
            }
        }
        Ok(payout)
    }
}

/// Total of a sequence of holdings.
pub open spec fn sum_holdings(hs: Seq<u64>) -> int
    decreases hs.len(),
{
    if hs.len() == 0 {
        0
    } else {
        sum_holdings(hs.drop_last()) + hs.last()
    }
}

/// Total of the pro-rata payouts over a sequence of holdings, each payout
/// being exactly what `spec_claim` grants a holding on the winning side:
/// `floor(h * reserve_stable / supply)`.
pub open spec fn sum_payouts(hs: Seq<u64>, reserve_stable: u64, supply: u64) -> int
    decreases hs.len(),
{
    if hs.len() == 0 {
        0
    } else {
        sum_payouts(hs.drop_last(), reserve_stable, supply)
            + mul_div_spec(hs.last(), reserve_stable, supply)
    }
}

/// Floor division distributes sub-additively over a sum of numerators.
proof fn lemma_div_superadditive(a: int, b: int, d: int)
    requires
        a >= 0,
        b >= 0,
        d >= 1,
    ensures
        a / d + b / d <= (a + b) / d,
{
    assert(a / d + b / d <= (a + b) / d) by (nonlinear_arith)
        requires
            a >= 0,
            b >= 0,
            d >= 1,
    ;
}

/// The payouts of any set of holdings total at most the proportional share
/// of the stable reserve that the holdings themselves total.
proof fn lemma_sum_payouts_le(hs: Seq<u64>, reserve_stable: u64, supply: u64)
    requires
        supply >= 1,
    ensures
        sum_holdings(hs) >= 0,
        sum_payouts(hs, reserve_stable, supply)
            <= (sum_holdings(hs) * reserve_stable) / (supply as int),
    decreases hs.len(),
{
    if hs.len() == 0 {
    } else {
        let rest = hs.drop_last();
        lemma_sum_payouts_le(rest, reserve_stable, supply);
        lemma_div_superadditive(
            sum_holdings(rest) * reserve_stable,
            hs.last() * reserve_stable,
            supply as int,
        );
        assert((sum_holdings(rest) + hs.last()) * reserve_stable
            == sum_holdings(rest) * reserve_stable + hs.last() * reserve_stable)
            by (nonlinear_arith);
    }
}

/// Claim payouts never overdraw the pool: however the winning side's
/// outstanding supply is split across holders, the pro-rata payouts total at
/// most the stable reserve recorded at settlement time.
pub proof fn lemma_claim_payouts_bounded(hs: Seq<u64>, reserve_stable: u64, supply: u64)
    requires
        supply >= 1,
        sum_holdings(hs) <= supply,
    ensures
        sum_payouts(hs, reserve_stable, supply) <= reserve_stable,
{
    lemma_sum_payouts_le(hs, reserve_stable, supply);
    assert((sum_holdings(hs) * reserve_stable) / (supply as int) <= reserve_stable)
        by (nonlinear_arith)
        requires
            supply >= 1,
            0 <= sum_holdings(hs) <= supply,
            reserve_stable >= 0,
    ;
}

} // verus!
