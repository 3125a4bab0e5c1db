//! Adding and removing liquidity.
//!
//! A deposit contributes stable liquidity and mints outcome tokens into the
//! pool plus LP tokens for the depositor; a withdrawal burns LP tokens and
//! pays out the proportional share of all three reserves, rounding every
//! division down so that dust stays in the pool. The first deposit into an
//! empty pool seeds the reserves directly at a 0.5 / 0.5 price; later
//! deposits mint at the minimum of the three reserve ratios so that a
//! depositor can never mint a disproportionate claim.

use vstd::prelude::*;

use crate::errors::MarketError;
use crate::fixed::{
    lemma_div_at_most, lemma_div_below, lemma_div_bounds, mul_div, mul_div_spec, safe_add,
    safe_div, safe_mul, PRECISION,
};
use crate::market::Market;

verus! {

/// Amounts realized by a liquidity deposit.
#[derive(Clone, Copy, Debug, PartialEq, Eq, Structural)]
pub struct DepositLiquidityResult {
    /// Stable asset consumed.
    pub usdc_amount: u64,
    /// YES outcome tokens minted into the pool.
    pub yes_amount: u64,
    /// NO outcome tokens minted into the pool.
    pub no_amount: u64,
    /// LP tokens minted for the depositor.
    pub lp_tokens: u64,
}

/// Amounts paid out by a liquidity withdrawal.
#[derive(Clone, Copy, Debug, PartialEq, Eq, Structural)]
pub struct WithdrawLiquidityResult {
    /// YES outcome tokens transferred out.
    pub yes_out: u64,
    /// NO outcome tokens transferred out.
    pub no_out: u64,
    /// Stable asset transferred out.
    pub stable_out: u64,
}

/// The least of three values.
pub open spec fn min3(a: u64, b: u64, c: u64) -> u64 {
    if a <= b && a <= c {
        a
    } else if b <= c {
        b
    } else {
        c
    }
}

/// The share a contribution represents of an existing pool balance, as a
/// fixed-point fraction: `floor(amount * precision / pool)`.
pub open spec fn ratio_spec(amount: u64, precision: u64, pool: u64) -> int {
    (amount * precision) / (pool as int)
}

/// What the proportional-deposit calculation returns.
///
/// Each contribution is related to its pool balance; the minimum of the
/// three ratios prices the deposit, and the LP mint and the realized outcome
/// mints are that minimum share of the LP supply and of each outcome
/// reserve. A division against a zero pool balance fails with
/// `NoLiquidityInPool`; a zero precision or an intermediate value beyond 64
/// bits fails with `Overflow`.
pub open spec fn spec_deposit_ratios(
    usdc_amount: u64,
    yes_amount: u64,
    no_amount: u64,
    pool_usdc: u64,
    pool_yes: u64,
    pool_no: u64,
    lp_total_supply: u64,
    precision: u64,
) -> Result<DepositLiquidityResult, MarketError> {
    if pool_usdc == 0 || pool_yes == 0 || pool_no == 0 {
        Err(MarketError::NoLiquidityInPool)
    } else if precision == 0 {
        Err(MarketError::Overflow)
    } else if usdc_amount * precision > u64::MAX || yes_amount * precision > u64::MAX
        || no_amount * precision > u64::MAX {
        Err(MarketError::Overflow)
    } else {
        let min_ratio = min3(
            ratio_spec(usdc_amount, precision, pool_usdc) as u64,
            ratio_spec(yes_amount, precision, pool_yes) as u64,
            ratio_spec(no_amount, precision, pool_no) as u64,
        );
        if mul_div_spec(lp_total_supply, min_ratio, precision) > u64::MAX
            || mul_div_spec(pool_yes, min_ratio, precision) > u64::MAX
            || mul_div_spec(pool_no, min_ratio, precision) > u64::MAX {
            Err(MarketError::Overflow)
        } else {
            Ok(DepositLiquidityResult {
                usdc_amount,
                yes_amount: mul_div_spec(pool_yes, min_ratio, precision) as u64,
                no_amount: mul_div_spec(pool_no, min_ratio, precision) as u64,
                lp_tokens: mul_div_spec(lp_total_supply, min_ratio, precision) as u64,
            })
        }
    }
}

/// Proportional-deposit calculation for a pool that already has liquidity.
///
/// Returns exactly [`spec_deposit_ratios`] of its arguments: the minimum of
/// the three contribution ratios prices the deposit, and the realized mints
/// are derived from that minimum, never from the nominal contributions. A
/// zero pool balance fails with `NoLiquidityInPool` before any arithmetic.
pub fn add_liquidity(
    usdc_amount: u64,
    yes_amount: u64,
    no_amount: u64,
    pool_usdc: u64,
    pool_yes: u64,
    pool_no: u64,
    lp_total_supply: u64,
    precision: u64,
) -> (r: Result<DepositLiquidityResult, MarketError>)
    ensures
        r == spec_deposit_ratios(
            usdc_amount,
            yes_amount,
            no_amount,
            pool_usdc,
            pool_yes,
            pool_no,
            lp_total_supply,
            precision,
        ),
{
    if pool_usdc == 0 || pool_yes == 0 || pool_no == 0 {
        return Err(MarketError::NoLiquidityInPool);
    }
    let usdc_scaled = safe_mul(usdc_amount, precision)?;
    let yes_scaled = safe_mul(yes_amount, precision)?;
    let no_scaled = safe_mul(no_amount, precision)?;
    let usdc_ratio = safe_div(usdc_scaled, pool_usdc)?;
    let yes_ratio = safe_div(yes_scaled, pool_yes)?;
    let no_ratio = safe_div(no_scaled, pool_no)?;
    let min_ratio: u64 = if usdc_ratio <= yes_ratio && usdc_ratio <= no_ratio {
        usdc_ratio
    } else if yes_ratio <= no_ratio {
        yes_ratio
    } else {
        no_ratio
    };
    let lp_tokens = mul_div(lp_total_supply, min_ratio, precision)?;
    let yes_minted = mul_div(pool_yes, min_ratio, precision)?;
    let no_minted = mul_div(pool_no, min_ratio, precision)?;
    Ok(DepositLiquidityResult {
        usdc_amount,
        yes_amount: yes_minted,
        no_amount: no_minted,
        lp_tokens,
    })
}

/// What `Market::add_liquidity` does.
///
/// The entry checks come first, in order: pause, settlement, deadline, zero
/// amounts. A first deposit seeds the reserves directly — half of the
/// contribution backs each outcome side — and mints one LP token per stable
/// unit. A later deposit goes through [`spec_deposit_ratios`] on the three
/// reserves. Either way the realized outcome mints must not exceed the
/// caller's bounds, and every updated balance must fit 64 bits.
pub open spec fn spec_add_liquidity(
    m: Market,
    stable_in: u64,
    max_yes: u64,
    max_no: u64,
    now: i64,
    expiration: i64,
) -> Result<(Market, DepositLiquidityResult), MarketError> {
    if m.locked {
        Err(MarketError::PoolLocked)
    } else if m.settled {
        Err(MarketError::MarketAlreadySettled)
    } else if now > expiration {
        Err(MarketError::OfferExpired)
    } else if stable_in == 0 || max_yes == 0 || max_no == 0 {
        Err(MarketError::ZeroBalance)
    } else if m.supply_lp == 0 {
        let half = (stable_in / 2) as u64;
        if half > max_yes || half > max_no {
            Err(MarketError::SlippageExceeded)
        } else if m.supply_yes + half > u64::MAX || m.supply_no + half > u64::MAX
            || m.total_liquidity + stable_in > u64::MAX {
            Err(MarketError::Overflow)
        } else {
            Ok((
                Market {
                    reserve_yes: half,
                    reserve_no: half,
                    reserve_stable: stable_in,
                    supply_yes: (m.supply_yes + half) as u64,
                    supply_no: (m.supply_no + half) as u64,
                    supply_lp: stable_in,
                    total_liquidity: (m.total_liquidity + stable_in) as u64,
                    ..m
                },
                DepositLiquidityResult {
                    usdc_amount: stable_in,
                    yes_amount: half,
                    no_amount: half,
                    lp_tokens: stable_in,
                },
            ))
        }
    } else if m.reserve_stable == 0 || m.reserve_yes == 0 || m.reserve_no == 0 {
        Err(MarketError::NoLiquidityInPool)
    } else {
        match spec_deposit_ratios(
            stable_in,
            stable_in,
            stable_in,
            m.reserve_stable,
            m.reserve_yes,
            m.reserve_no,
            m.supply_lp,
            PRECISION,
        ) {
            Err(e) => Err(e),
            Ok(d) => {
                if d.yes_amount > max_yes || d.no_amount > max_no {
                    Err(MarketError::SlippageExceeded)
                } else if m.reserve_stable + stable_in > u64::MAX
                    || m.reserve_yes + d.yes_amount > u64::MAX
                    || m.reserve_no + d.no_amount > u64::MAX
                    || m.supply_yes + d.yes_amount > u64::MAX
                    || m.supply_no + d.no_amount > u64::MAX
                    || m.supply_lp + d.lp_tokens > u64::MAX
                    || m.total_liquidity + stable_in > u64::MAX {
                    Err(MarketError::Overflow)
                } else {
                    Ok((
                        Market {
                            reserve_yes: (m.reserve_yes + d.yes_amount) as u64,
                            reserve_no: (m.reserve_no + d.no_amount) as u64,
                            reserve_stable: (m.reserve_stable + stable_in) as u64,
                            supply_yes: (m.supply_yes + d.yes_amount) as u64,
                            supply_no: (m.supply_no + d.no_amount) as u64,
                            supply_lp: (m.supply_lp + d.lp_tokens) as u64,
                            total_liquidity: (m.total_liquidity + stable_in) as u64,
                            ..m
                        },
                        d,
                    ))
                }
            },
        }
    }
}

/// What `Market::remove_liquidity` does.
///
/// After the entry checks, the burned LP amount's fraction of the LP supply
/// is paid out of each of the three reserves by floor division, and the
/// liquidity counter shrinks by the same fraction; a failed slippage bound
/// rejects the whole operation.
pub open spec fn spec_remove_liquidity(
    m: Market,
    lp_amount: u64,
    min_yes: u64,
    min_no: u64,
    now: i64,
    expiration: i64,
) -> Result<(Market, WithdrawLiquidityResult), MarketError> {
    if m.locked {
        Err(MarketError::PoolLocked)
    } else if m.settled {
        Err(MarketError::MarketAlreadySettled)
    } else if now > expiration {
        Err(MarketError::OfferExpired)
    } else if lp_amount == 0 {
        Err(MarketError::ZeroBalance)
    } else if lp_amount > m.supply_lp {
        Err(MarketError::InsufficientBalance)
    } else {
        let yes_out = mul_div_spec(m.reserve_yes, lp_amount, m.supply_lp) as u64;
        let no_out = mul_div_spec(m.reserve_no, lp_amount, m.supply_lp) as u64;
        let stable_out = mul_div_spec(m.reserve_stable, lp_amount, m.supply_lp) as u64;
        let liquidity_out = mul_div_spec(m.total_liquidity, lp_amount, m.supply_lp) as u64;
        if yes_out < min_yes || no_out < min_no {
            Err(MarketError::SlippageExceeded)
        } else {
            Ok((
                Market {
                    reserve_yes: (m.reserve_yes - yes_out) as u64,
                    reserve_no: (m.reserve_no - no_out) as u64,
                    reserve_stable: (m.reserve_stable - stable_out) as u64,
                    supply_lp: (m.supply_lp - lp_amount) as u64,
                    total_liquidity: (m.total_liquidity - liquidity_out) as u64,
                    ..m
                },
                WithdrawLiquidityResult { yes_out, no_out, stable_out },
            ))
        }
    }
}

/// A floor-divided share never exceeds the balance it is taken from.
proof fn lemma_share_le_balance(balance: u64, part: u64, whole: u64)
    requires
        whole >= 1,
        part <= whole,
    ensures
        0 <= mul_div_spec(balance, part, whole) <= balance,
        part == whole ==> mul_div_spec(balance, part, whole) == balance,
        part < whole && balance >= 1 ==> mul_div_spec(balance, part, whole) < balance,
{
    assert(0 <= (balance * part) / (whole as int) <= balance) by (nonlinear_arith)
        requires
            whole >= 1,
            0 <= part <= whole,
            balance >= 0,
    ;
    if part == whole {
        assert((balance * part) / (whole as int) == balance) by (nonlinear_arith)
            requires
                whole >= 1,
                part == whole,
        ;
    }
    if part < whole && balance >= 1 {
        assert((balance * part) / (whole as int) < balance) by (nonlinear_arith)
            requires
                1 <= balance,
                0 <= part < whole,
        ;
    }
}

impl Market {
    /// Deposit `stable_in` stable units of liquidity.
    ///
    /// Returns the realized outcome and LP mints; fails — leaving the
    /// market unchanged — while paused or settled, past the deadline, on a
    /// zero amount, when a realized mint exceeds the caller's bound, or
    /// when a balance would overflow. On success the reserves, supplies and
    /// the liquidity counter advance exactly as [`spec_add_liquidity`]
    /// states.
    pub fn add_liquidity(
        &mut self,
        stable_in: u64,
        max_yes: u64,
        max_no: u64,
        now: i64,
        expiration: i64,
    ) -> (r: Result<DepositLiquidityResult, MarketError>)
        requires
            old(self).well_formed(),
        ensures
            match spec_add_liquidity(*old(self), stable_in, max_yes, max_no, now, expiration) {
                Ok(p) => r == Ok::<DepositLiquidityResult, MarketError>(p.1) && *final(self) == p.0,
                Err(e) => r == Err::<DepositLiquidityResult, MarketError>(e)
                    && *final(self) == *old(self),
            },
            final(self).well_formed(),
            final(self).settled == old(self).settled,
            old(self).settled ==> r is Err,
    {
        if self.locked {
            return Err(MarketError::PoolLocked);
        }
        if self.settled {
            return Err(MarketError::MarketAlreadySettled);
        }
        if now > expiration {
            return Err(MarketError::OfferExpired);
        }
        if stable_in == 0 || max_yes == 0 || max_no == 0 {
            return Err(MarketError::ZeroBalance);
        }
        if self.supply_lp == 0 {
            let half: u64 = stable_in / 2;
            if half > max_yes || half > max_no {
                return Err(MarketError::SlippageExceeded);
            }
            let new_supply_yes = safe_add(self.supply_yes, half)?;
            let new_supply_no = safe_add(self.supply_no, half)?;
            let new_total_liquidity = safe_add(self.total_liquidity, stable_in)?;
            self.reserve_yes = half;
            self.reserve_no = half;
            self.reserve_stable = stable_in;
            self.supply_yes = new_supply_yes;
            self.supply_no = new_supply_no;
            self.supply_lp = stable_in;
            self.total_liquidity = new_total_liquidity;
            return Ok(DepositLiquidityResult {
                usdc_amount: stable_in,
                yes_amount: half,
                no_amount: half,
                lp_tokens: stable_in,
            });
        }
        if self.reserve_stable == 0 || self.reserve_yes == 0 || self.reserve_no == 0 {
            return Err(MarketError::NoLiquidityInPool);
        }
        let d = add_liquidity(
            stable_in,
            stable_in,
            stable_in,
            self.reserve_stable,
            self.reserve_yes,
            self.reserve_no,
            self.supply_lp,
            PRECISION,
        )?;
        if d.yes_amount > max_yes || d.no_amount > max_no {
            return Err(MarketError::SlippageExceeded);
        }
        let new_reserve_stable = safe_add(self.reserve_stable, stable_in)?;
        let new_reserve_yes = safe_add(self.reserve_yes, d.yes_amount)?;
        let new_reserve_no = safe_add(self.reserve_no, d.no_amount)?;
        let new_supply_yes = safe_add(self.supply_yes, d.yes_amount)?;
        let new_supply_no = safe_add(self.supply_no, d.no_amount)?;
        let new_supply_lp = safe_add(self.supply_lp, d.lp_tokens)?;
        let new_total_liquidity = safe_add(self.total_liquidity, stable_in)?;
        self.reserve_stable = new_reserve_stable;
        self.reserve_yes = new_reserve_yes;
        self.reserve_no = new_reserve_no;
        self.supply_yes = new_supply_yes;
        self.supply_no = new_supply_no;
        self.supply_lp = new_supply_lp;
        self.total_liquidity = new_total_liquidity;
        Ok(d)
    }

    /// Burn `lp_amount` LP tokens and withdraw the proportional share of
    /// all three reserves.
    ///
    /// Every division rounds down, so a withdrawal can never overdraw a
    /// reserve and any remainder stays in the pool; fails — leaving the
    /// market unchanged — while paused or settled, past the deadline, on a
    /// zero or excessive LP amount, or when an outcome payout falls short
    /// of the caller's minimum.
    pub fn remove_liquidity(
        &mut self,
        lp_amount: u64,
        min_yes: u64,
        min_no: u64,
        now: i64,
        expiration: i64,
    ) -> (r: Result<WithdrawLiquidityResult, MarketError>)
        requires
            old(self).well_formed(),
        ensures
            match spec_remove_liquidity(*old(self), lp_amount, min_yes, min_no, now, expiration) {
                Ok(p) => r == Ok::<WithdrawLiquidityResult, MarketError>(p.1)
                    && *final(self) == p.0,
                Err(e) => r == Err::<WithdrawLiquidityResult, MarketError>(e)
                    && *final(self) == *old(self),
            },
            final(self).well_formed(),
            final(self).settled == old(self).settled,
            old(self).settled ==> r is Err,
    {
        if self.locked {
            return Err(MarketError::PoolLocked);
        }
        if self.settled {
            return Err(MarketError::MarketAlreadySettled);
        }
        if now > expiration {
            return Err(MarketError::OfferExpired);
        }
        if lp_amount == 0 {
            return Err(MarketError::ZeroBalance);
        }
        if lp_amount > self.supply_lp {
            return Err(MarketError::InsufficientBalance);
        }
        proof {
            lemma_share_le_balance(self.reserve_yes, lp_amount, self.supply_lp);
            lemma_share_le_balance(self.reserve_no, lp_amount, self.supply_lp);
            lemma_share_le_balance(self.reserve_stable, lp_amount, self.supply_lp);
            lemma_share_le_balance(self.total_liquidity, lp_amount, self.supply_lp);
        }
        let yes_out = match mul_div(self.reserve_yes, lp_amount, self.supply_lp) {
            Ok(v) => v,
            Err(e) => { return Err(e); },
        };
        let no_out = match mul_div(self.reserve_no, lp_amount, self.supply_lp) {
            Ok(v) => v,
            Err(e) => { return Err(e); },
        };
        let stable_out = match mul_div(self.reserve_stable, lp_amount, self.supply_lp) {
            Ok(v) => v,
            Err(e) => { return Err(e); },
        };
        let liquidity_out = match mul_div(self.total_liquidity, lp_amount, self.supply_lp) {
            Ok(v) => v,
            Err(e) => { return Err(e); },
        };
        if yes_out < min_yes || no_out < min_no {
            return Err(MarketError::SlippageExceeded);
        }
        self.reserve_yes = self.reserve_yes - yes_out;
        self.reserve_no = self.reserve_no - no_out;
        self.reserve_stable = self.reserve_stable - stable_out;
        self.supply_lp = self.supply_lp - lp_amount;
        self.total_liquidity = self.total_liquidity - liquidity_out;
        Ok(WithdrawLiquidityResult { yes_out, no_out, stable_out })
    }
}

/// An initial deposit and an immediate full withdrawal round-trip exactly.
///
/// Seeding an empty pool and at once burning every LP token minted returns
/// precisely the outcome tokens and the stable amount the deposit put in —
/// no dust at all — and drains the pool back to empty.
pub proof fn lemma_lp_round_trip_fresh(
    m: Market,
    stable_in: u64,
    max_yes: u64,
    max_no: u64,
    now: i64,
    expiration: i64,
    now2: i64,
    expiration2: i64,
)
    requires
        m.well_formed(),
        m.supply_lp == 0,
    ensures
        spec_add_liquidity(m, stable_in, max_yes, max_no, now, expiration) matches Ok(p)
            ==> (spec_remove_liquidity(p.0, p.1.lp_tokens, 0, 0, now2, expiration2) matches Ok(q)
                ==> q.1.yes_out == p.1.yes_amount
                    && q.1.no_out == p.1.no_amount
                    && q.1.stable_out == p.1.usdc_amount
                    && q.0.supply_lp == 0
                    && q.0.reserve_yes == 0
                    && q.0.reserve_no == 0
                    && q.0.reserve_stable == 0),
{
    let add = spec_add_liquidity(m, stable_in, max_yes, max_no, now, expiration);
    if add is Ok {
        let p = add->Ok_0;
        let half = (stable_in / 2) as u64;
        assert(p.0.supply_lp == stable_in && p.1.lp_tokens == stable_in);
        assert(p.0.reserve_yes == half && p.0.reserve_no == half
            && p.0.reserve_stable == stable_in);
        assert(stable_in >= 1);
        lemma_share_le_balance(half, stable_in, stable_in);
        lemma_share_le_balance(stable_in, stable_in, stable_in);
    }
}

/// A later deposit and an immediate withdrawal of the minted LP tokens
/// never return more than was deposited.
///
/// Whatever rounding occurs in the ratio, mint and payout divisions, each
/// of the three amounts paid out is bounded by the corresponding amount the
/// deposit consumed: the pool keeps every remainder.
pub proof fn lemma_lp_round_trip_bounded(
    m: Market,
    stable_in: u64,
    max_yes: u64,
    max_no: u64,
    min_yes: u64,
    min_no: u64,
    now: i64,
    expiration: i64,
    now2: i64,
    expiration2: i64,
)
    requires
        m.supply_lp >= 1,
    ensures
        spec_add_liquidity(m, stable_in, max_yes, max_no, now, expiration) matches Ok(p)
            ==> (spec_remove_liquidity(p.0, p.1.lp_tokens, min_yes, min_no, now2, expiration2)
                matches Ok(q)
                ==> q.1.yes_out <= p.1.yes_amount
                    && q.1.no_out <= p.1.no_amount
                    && q.1.stable_out <= p.1.usdc_amount),
{
    let add = spec_add_liquidity(m, stable_in, max_yes, max_no, now, expiration);
    if add is Ok {
        let p = add->Ok_0;
        let rmv = spec_remove_liquidity(p.0, p.1.lp_tokens, min_yes, min_no, now2, expiration2);
        if rmv is Ok {
            let q = rmv->Ok_0;
            let s = stable_in as int;
            let pr = PRECISION as int;
            let big = m.supply_lp as int;
            let r_stable = m.reserve_stable as int;
            let r_yes = m.reserve_yes as int;
            let r_no = m.reserve_no as int;
            let ratio_stable = (s * pr) / r_stable;
            let ratio_yes = (s * pr) / r_yes;
            let ratio_no = (s * pr) / r_no;
            let mr = min3(ratio_stable as u64, ratio_yes as u64, ratio_no as u64) as int;
            let a_yes = (r_yes * mr) / pr;
            let a_no = (r_no * mr) / pr;
            let lp = (big * mr) / pr;
            assert(r_stable >= 1 && r_yes >= 1 && r_no >= 1);
            lemma_div_bounds(s * pr, r_stable);
            lemma_div_bounds(s * pr, r_yes);
            lemma_div_bounds(s * pr, r_no);
            assert(p.1.yes_amount == a_yes && p.1.no_amount == a_no
                && p.1.usdc_amount == stable_in && p.1.lp_tokens == lp);
            assert(p.0.reserve_yes == r_yes + a_yes && p.0.reserve_no == r_no + a_no
                && p.0.reserve_stable == r_stable + s && p.0.supply_lp == big + lp);
            assert(lp >= 1 && lp <= big + lp);
            lemma_share_le_balance(p.0.reserve_yes, p.1.lp_tokens, p.0.supply_lp);
            lemma_share_le_balance(p.0.reserve_no, p.1.lp_tokens, p.0.supply_lp);
            lemma_share_le_balance(p.0.reserve_stable, p.1.lp_tokens, p.0.supply_lp);
            assert(q.1.yes_out == ((r_yes + a_yes) * lp) / (big + lp));
            assert(q.1.no_out == ((r_no + a_no) * lp) / (big + lp));
            assert(q.1.stable_out == ((r_stable + s) * lp) / (big + lp));
            // the minimum ratio is a floor, so it under-approximates the
            // stable contribution's share of the stable reserve
            assert(mr * r_stable <= s * pr) by (nonlinear_arith)
                requires
                    0 <= mr <= ratio_stable,
                    ratio_stable * r_stable <= s * pr,
                    r_stable >= 1,
            ;
            // each mint and the LP mint are floors of their exact shares
            lemma_div_bounds(r_yes * mr, pr);
            lemma_div_bounds(r_no * mr, pr);
            lemma_div_bounds(big * mr, pr);
            // outcome sides: reserve * lp stays below supply * (mint + 1)
            assert((r_yes + a_yes) * lp < (a_yes + 1) * (big + lp)) by (nonlinear_arith)
                requires
                    r_yes * mr < pr * a_yes + pr,
                    pr * lp <= big * mr,
                    pr >= 1,
                    big >= 1,
                    r_yes >= 1,
                    mr >= 0,
                    a_yes >= 0,
                    lp >= 0,
            ;
            lemma_div_below((r_yes + a_yes) * lp, big + lp, a_yes + 1);
            assert((r_no + a_no) * lp < (a_no + 1) * (big + lp)) by (nonlinear_arith)
                requires
                    r_no * mr < pr * a_no + pr,
                    pr * lp <= big * mr,
                    pr >= 1,
                    big >= 1,
                    r_no >= 1,
                    mr >= 0,
                    a_no >= 0,
                    lp >= 0,
            ;
            lemma_div_below((r_no + a_no) * lp, big + lp, a_no + 1);
            // stable side: reserve * lp stays within supply * contribution
            assert((r_stable + s) * lp <= s * (big + lp)) by (nonlinear_arith)
                requires
                    mr * r_stable <= s * pr,
                    pr * lp <= big * mr,
                    pr >= 1,
                    big >= 1,
                    r_stable >= 1,
                    mr >= 0,
                    s >= 0,
                    lp >= 0,
            ;
            lemma_div_at_most((r_stable + s) * lp, big + lp, s);
        }
    }
}

/// The minimum deposit ratio prices this contribution with no rounding at
/// all: it is the stable contribution's exact fixed-point share of the
/// stable reserve, and that share of the LP supply and of both outcome
/// reserves is a whole number of units.
pub open spec fn deposit_ratio_is_exact(m: Market, stable_in: u64) -> bool {
    let pr = PRECISION as int;
    let mr = min3(
        ratio_spec(stable_in, PRECISION, m.reserve_stable) as u64,
        ratio_spec(stable_in, PRECISION, m.reserve_yes) as u64,
        ratio_spec(stable_in, PRECISION, m.reserve_no) as u64,
    ) as int;
    &&& mr * m.reserve_stable == stable_in * pr
    &&& (m.supply_lp * mr) % pr == 0
    &&& (m.reserve_yes * mr) % pr == 0
    &&& (m.reserve_no * mr) % pr == 0
}

/// Where the minimum ratio divides every balance evenly, a later deposit
/// and an immediate withdrawal of the minted LP tokens round-trip exactly:
/// the stable amount and both outcome mints come back whole, so the
/// one-unit dust bound is met with no dust at all.
///
/// Where the ratios do round, the pool keeps the difference — which can
/// exceed one unit per asset, because the minimum-ratio pricing itself
/// forfeits any excess over the scarcest reserve's share —
/// [`lemma_lp_round_trip_bounded`] bounds that case one-sidedly.
pub proof fn lemma_lp_round_trip_exact(
    m: Market,
    stable_in: u64,
    max_yes: u64,
    max_no: u64,
    min_yes: u64,
    min_no: u64,
    now: i64,
    expiration: i64,
    now2: i64,
    expiration2: i64,
)
    requires
        m.supply_lp >= 1,
        deposit_ratio_is_exact(m, stable_in),
    ensures
        spec_add_liquidity(m, stable_in, max_yes, max_no, now, expiration) matches Ok(p)
            ==> (spec_remove_liquidity(p.0, p.1.lp_tokens, min_yes, min_no, now2, expiration2)
                matches Ok(q)
                ==> q.1.yes_out == p.1.yes_amount
                    && q.1.no_out == p.1.no_amount
                    && q.1.stable_out == stable_in),
{
    let add = spec_add_liquidity(m, stable_in, max_yes, max_no, now, expiration);
    if add is Ok {
        let p = add->Ok_0;
        let rmv = spec_remove_liquidity(p.0, p.1.lp_tokens, min_yes, min_no, now2, expiration2);
        if rmv is Ok {
            let q = rmv->Ok_0;
            let s = stable_in as int;
            let pr = PRECISION as int;
            let big = m.supply_lp as int;
            let r_stable = m.reserve_stable as int;
            let r_yes = m.reserve_yes as int;
            let r_no = m.reserve_no as int;
            let ratio_stable = (s * pr) / r_stable;
            let ratio_yes = (s * pr) / r_yes;
            let ratio_no = (s * pr) / r_no;
            let mr = min3(ratio_stable as u64, ratio_yes as u64, ratio_no as u64) as int;
            let a_yes = (r_yes * mr) / pr;
            let a_no = (r_no * mr) / pr;
            let lp = (big * mr) / pr;
            assert(r_stable >= 1 && r_yes >= 1 && r_no >= 1);
            lemma_div_bounds(s * pr, r_stable);
            lemma_div_bounds(s * pr, r_yes);
            lemma_div_bounds(s * pr, r_no);
            assert(p.1.yes_amount == a_yes && p.1.no_amount == a_no
                && p.1.usdc_amount == stable_in && p.1.lp_tokens == lp);
            assert(p.0.reserve_yes == r_yes + a_yes && p.0.reserve_no == r_no + a_no
                && p.0.reserve_stable == r_stable + s && p.0.supply_lp == big + lp);
            assert(lp >= 1 && lp <= big + lp);
            lemma_share_le_balance(p.0.reserve_yes, p.1.lp_tokens, p.0.supply_lp);
            lemma_share_le_balance(p.0.reserve_no, p.1.lp_tokens, p.0.supply_lp);
            lemma_share_le_balance(p.0.reserve_stable, p.1.lp_tokens, p.0.supply_lp);
            assert(q.1.yes_out == ((r_yes + a_yes) * lp) / (big + lp));
            assert(q.1.no_out == ((r_no + a_no) * lp) / (big + lp));
            assert(q.1.stable_out == ((r_stable + s) * lp) / (big + lp));
            // the divisibility hypotheses turn every floor into an equality
            assert(mr * r_stable == s * pr && (big * mr) % pr == 0
                && (r_yes * mr) % pr == 0 && (r_no * mr) % pr == 0);
            vstd::arithmetic::div_mod::lemma_fundamental_div_mod(big * mr, pr);
            vstd::arithmetic::div_mod::lemma_fundamental_div_mod(r_yes * mr, pr);
            vstd::arithmetic::div_mod::lemma_fundamental_div_mod(r_no * mr, pr);
            assert(lp * pr == big * mr && a_yes * pr == r_yes * mr && a_no * pr == r_no * mr);
            // each reserve's payout factor cancels: reserve * lp equals
            // supply * mint, so the withdrawal divides with no remainder
            assert(r_yes * lp == big * a_yes) by (nonlinear_arith)
                requires
                    lp * pr == big * mr,
                    a_yes * pr == r_yes * mr,
                    pr >= 1,
            ;
            assert(r_no * lp == big * a_no) by (nonlinear_arith)
                requires
                    lp * pr == big * mr,
                    a_no * pr == r_no * mr,
                    pr >= 1,
            ;
            assert(r_stable * lp == big * s) by (nonlinear_arith)
                requires
                    lp * pr == big * mr,
                    mr * r_stable == s * pr,
                    pr >= 1,
            ;
            assert((r_yes + a_yes) * lp == a_yes * (big + lp)) by (nonlinear_arith)
                requires
                    r_yes * lp == big * a_yes,
            ;
            assert((r_no + a_no) * lp == a_no * (big + lp)) by (nonlinear_arith)
                requires
                    r_no * lp == big * a_no,
            ;
            assert((r_stable + s) * lp == s * (big + lp)) by (nonlinear_arith)
                requires
                    r_stable * lp == big * s,
            ;
            assert((a_yes * (big + lp)) / (big + lp) == a_yes) by (nonlinear_arith)
                requires
                    big + lp >= 1,
            ;
            assert((a_no * (big + lp)) / (big + lp) == a_no) by (nonlinear_arith)
                requires
                    big + lp >= 1,
            ;
            assert((s * (big + lp)) / (big + lp) == s) by (nonlinear_arith)
                requires
                    big + lp >= 1,
            ;
        }
    }
}

} // verus!
