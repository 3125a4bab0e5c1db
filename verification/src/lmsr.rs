//! The cost-function (LMSR-style) pricing curve.
//!
//! Both outcome sides are priced jointly through the liquidity-depth
//! parameter `b` and the cost function
//! `C(q_yes, q_no) = b * ln(exp(q_yes / b) + exp(q_no / b))`. The
//! instantaneous price of a side is its share of the exponential mass, and
//! buying shares costs the difference of the cost function before and after
//! the trade. Every evaluation uses the deterministic fixed-point
//! exponential and logarithm with fixed iteration counts, so all replicas
//! agree bit for bit.

use vstd::prelude::*;

use crate::cpmm::effective_in_spec;
use crate::errors::MarketError;
use crate::fixed::{
    exp_fx, exp_fx_spec, lemma_div_at_most, lemma_div_bounds, lemma_exp_bounds, ln_fx, ln_fx_spec,
    mul_div, mul_div_spec, EXP_INPUT_MAX, EXP_TERMS, FEE_DENOMINATOR, PRECISION,
};

verus! {

/// Default liquidity-depth parameter, in smallest units.
pub const DEFAULT_B: u64 = 1_000_000_000;

/// Joint pricing state of the two outcome sides under the cost-function
/// model: the liquidity depth and the outstanding share quantities.
#[derive(Clone, Copy, Debug, PartialEq, Eq, Structural)]
pub struct LMSRCalculator {
    pub b: u64,
    pub yes_shares: u64,
    pub no_shares: u64,
}

/// The fixed-point exponent a side feeds to the exponential:
/// `floor(q * PRECISION / b)`.
pub open spec fn spec_exponent_arg(q: u64, b: u64) -> int {
    (q * PRECISION) / (b as int)
}

/// What `calculate_cost` returns: `b * ln(exp(q_yes/b) + exp(q_no/b))`,
/// evaluated with the deterministic fixed-point exponential and logarithm.
/// A zero depth fails with `NoLiquidityInPool`; an exponent beyond the
/// exponential's domain with `MathOverflow` (or `Overflow` where it does
/// not even fit 64 bits); a result beyond 64 bits with `Overflow`.
pub open spec fn spec_cost(c: LMSRCalculator) -> Result<u64, MarketError> {
    if c.b == 0 {
        Err(MarketError::NoLiquidityInPool)
    } else if spec_exponent_arg(c.yes_shares, c.b) > u64::MAX {
        Err(MarketError::Overflow)
    } else if spec_exponent_arg(c.no_shares, c.b) > u64::MAX {
        Err(MarketError::Overflow)
    } else if spec_exponent_arg(c.yes_shares, c.b) > EXP_INPUT_MAX
        || spec_exponent_arg(c.no_shares, c.b) > EXP_INPUT_MAX {
        Err(MarketError::MathOverflow)
    } else {
        let mass = exp_fx_spec(spec_exponent_arg(c.yes_shares, c.b) as u64)
            + exp_fx_spec(spec_exponent_arg(c.no_shares, c.b) as u64);
        match ln_fx_spec(mass as u64) {
            None => Err(MarketError::MathOverflow),
            Some(l) => if mul_div_spec(c.b, l, PRECISION) > u64::MAX {
                Err(MarketError::Overflow)
            } else {
                Ok(mul_div_spec(c.b, l, PRECISION) as u64)
            },
        }
    }
}

/// What `calculate_price` returns: the side's share of the exponential
/// mass, `floor(exp(q_side/b) * PRECISION / (exp(q_yes/b) + exp(q_no/b)))`,
/// a fixed-point fraction of at most `1.0`.
pub open spec fn spec_price(c: LMSRCalculator, is_yes: bool) -> Result<u64, MarketError> {
    if c.b == 0 {
        Err(MarketError::NoLiquidityInPool)
    } else if spec_exponent_arg(c.yes_shares, c.b) > u64::MAX {
        Err(MarketError::Overflow)
    } else if spec_exponent_arg(c.no_shares, c.b) > u64::MAX {
        Err(MarketError::Overflow)
    } else if spec_exponent_arg(c.yes_shares, c.b) > EXP_INPUT_MAX
        || spec_exponent_arg(c.no_shares, c.b) > EXP_INPUT_MAX {
        Err(MarketError::MathOverflow)
    } else {
        let e_yes = exp_fx_spec(spec_exponent_arg(c.yes_shares, c.b) as u64);
        let e_no = exp_fx_spec(spec_exponent_arg(c.no_shares, c.b) as u64);
        let numerator = if is_yes { e_yes } else { e_no };
        Ok(((numerator * PRECISION) / (e_yes + e_no)) as u64)
    }
}

/// What `calculate_cost_to_buy` returns: the cost difference
/// `C(q + shares) - C(q)` of hypothetically adding `shares` to one side.
pub open spec fn spec_cost_to_buy(c: LMSRCalculator, shares: u64, is_yes: bool) -> Result<
    u64,
    MarketError,
> {
    match spec_cost(c) {
        Err(e) => Err(e),
        Ok(current) => {
            let grown = if is_yes {
                c.yes_shares + shares
            } else {
                c.no_shares + shares
            };
            if grown > u64::MAX {
                Err(MarketError::Overflow)
            } else {
                let c2 = if is_yes {
                    LMSRCalculator { yes_shares: grown as u64, ..c }
                } else {
                    LMSRCalculator { no_shares: grown as u64, ..c }
                };
                match spec_cost(c2) {
                    Err(e) => Err(e),
                    Ok(after) => if after < current {
                        Err(MarketError::InvalidCost)
                    } else {
                        Ok((after - current) as u64)
                    },
                }
            }
        },
    }
}

impl LMSRCalculator {
    /// Bundle a liquidity depth and the two outstanding share quantities.
    pub fn new(b: u64, yes_shares: u64, no_shares: u64) -> (r: Self)
        ensures
            r == (LMSRCalculator { b, yes_shares, no_shares }),
    {
        LMSRCalculator { b, yes_shares, no_shares }
    }

    /// Evaluate the cost function at the current share quantities.
    ///
    /// Returns exactly [`spec_cost`] of this state.
    pub fn calculate_cost(&self) -> (r: Result<u64, MarketError>)
        ensures
            r == spec_cost(*self),
    {
        if self.b == 0 {
            return Err(MarketError::NoLiquidityInPool);
        }
        let x_yes = mul_div(self.yes_shares, PRECISION, self.b)?;
        let x_no = mul_div(self.no_shares, PRECISION, self.b)?;
        if x_yes > EXP_INPUT_MAX || x_no > EXP_INPUT_MAX {
            return Err(MarketError::MathOverflow);
        }
        let e_yes = exp_fx(x_yes);
        let e_no = exp_fx(x_no);
        let mass: u64 = e_yes + e_no;
        let l = ln_fx(mass)?;
        mul_div(self.b, l, PRECISION)
    }

    /// The instantaneous fixed-point price of one side, at most `1.0`.
    ///
    /// Returns exactly [`spec_price`] of this state.
    pub fn calculate_price(&self, is_yes: bool) -> (r: Result<u64, MarketError>)
        ensures
            r == spec_price(*self, is_yes),
            r matches Ok(p) ==> p <= PRECISION,
    {
        if self.b == 0 {
            return Err(MarketError::NoLiquidityInPool);
        }
        let x_yes = mul_div(self.yes_shares, PRECISION, self.b)?;
        let x_no = mul_div(self.no_shares, PRECISION, self.b)?;
        if x_yes > EXP_INPUT_MAX || x_no > EXP_INPUT_MAX {
            return Err(MarketError::MathOverflow);
        }
        let e_yes = exp_fx(x_yes);
        let e_no = exp_fx(x_no);
        let numerator: u64 = if is_yes {
            e_yes
        } else {
            e_no
        };
        proof {
            assert(numerator * PRECISION <= (e_yes + e_no) * PRECISION) by (nonlinear_arith)
                requires
                    0 < numerator <= e_yes + e_no,
                    PRECISION >= 1,
            ;
            lemma_div_at_most(
                numerator * PRECISION,
                e_yes + e_no,
                PRECISION as int,
            );
            lemma_div_bounds(numerator * PRECISION, e_yes + e_no);
        }
        let price: u64 = (((numerator as u128) * (PRECISION as u128))
            / ((e_yes as u128) + (e_no as u128))) as u64;
        Ok(price)
    }

    /// The cost of buying `shares` of one side: the cost function evaluated
    /// after hypothetically adding the shares, minus its current value.
    ///
    /// Returns exactly [`spec_cost_to_buy`] of this state.
    pub fn calculate_cost_to_buy(&self, shares: u64, is_yes: bool) -> (r: Result<u64, MarketError>)
        ensures
            r == spec_cost_to_buy(*self, shares, is_yes),
    {
        let current = self.calculate_cost()?;
        let base: u64 = if is_yes {
            self.yes_shares
        } else {
            self.no_shares
        };
        let grown = match base.checked_add(shares) {
            Some(v) => v,
            None => { return Err(MarketError::Overflow); },
        };
        let after_state = if is_yes {
            LMSRCalculator { b: self.b, yes_shares: grown, no_shares: self.no_shares }
        } else {
            LMSRCalculator { b: self.b, yes_shares: self.yes_shares, no_shares: grown }
        };
        let after = after_state.calculate_cost()?;
        if after < current {
            return Err(MarketError::InvalidCost);
        }
        Ok(after - current)
    }
}

/// What a cost-function swap quote returns.
///
/// The fee is deducted from the amount economically consumed. A buy is
/// denominated in the stable asset, and the cost function itself prices
/// share-denominated trades, so the stable amount is mapped to shares at
/// the side's instantaneous price: `floor(effective_in * PRECISION /
/// price)`. A sell is denominated in shares and uses the cost function
/// directly: `effective_in` shares return the drop `C(q) - C(q - Δ)`, and
/// the trade fails with `InsufficientBalance` if it would drive the side's
/// outstanding quantity negative.
pub open spec fn spec_lmsr_output(
    b: u64,
    input_amount: u64,
    yes_shares: u64,
    no_shares: u64,
    is_buying: bool,
    is_yes: bool,
    fee_bps: u16,
) -> Result<u64, MarketError> {
    if fee_bps > FEE_DENOMINATOR {
        Err(MarketError::InvalidFee)
    } else {
        let eff = effective_in_spec(input_amount, fee_bps) as u64;
        let c = LMSRCalculator { b, yes_shares, no_shares };
        if is_buying {
            match spec_price(c, is_yes) {
                Err(e) => Err(e),
                Ok(price) => if price == 0 {
                    Err(MarketError::InvalidPrice)
                } else if mul_div_spec(eff, PRECISION, price) > u64::MAX {
                    Err(MarketError::Overflow)
                } else {
                    Ok(mul_div_spec(eff, PRECISION, price) as u64)
                },
            }
        } else {
            let q = if is_yes {
                yes_shares
            } else {
                no_shares
            };
            if eff > q {
                Err(MarketError::InsufficientBalance)
            } else {
                match spec_cost(c) {
                    Err(e) => Err(e),
                    Ok(current) => {
                        let c2 = if is_yes {
                            LMSRCalculator { yes_shares: (q - eff) as u64, ..c }
                        } else {
                            LMSRCalculator { no_shares: (q - eff) as u64, ..c }
                        };
                        match spec_cost(c2) {
                            Err(e) => Err(e),
                            Ok(shrunk) => if current < shrunk {
                                Err(MarketError::InvalidCost)
                            } else {
                                Ok((current - shrunk) as u64)
                            },
                        }
                    },
                }
            }
        }
    }
}

/// Quote a swap on the cost-function curve with liquidity depth `b`.
///
/// Returns exactly [`spec_lmsr_output`] of its arguments.
pub fn lmsr_swap_output(
    b: u64,
    input_amount: u64,
    yes_shares: u64,
    no_shares: u64,
    is_buying: bool,
    is_yes: bool,
    fee_bps: u16,
) -> (r: Result<u64, MarketError>)
    ensures
        r == spec_lmsr_output(b, input_amount, yes_shares, no_shares, is_buying, is_yes, fee_bps),
{
    if fee_bps as u64 > FEE_DENOMINATOR {
        return Err(MarketError::InvalidFee);
    }
    let keep_bps: u64 = FEE_DENOMINATOR - (fee_bps as u64);
    proof {
        lemma_div_bounds(input_amount * keep_bps, FEE_DENOMINATOR as int);
        assert(input_amount * keep_bps <= (FEE_DENOMINATOR as int) * (input_amount as int))
            by (nonlinear_arith)
            requires
                0 <= keep_bps <= FEE_DENOMINATOR,
                input_amount >= 0,
        ;
        lemma_div_at_most(
            input_amount * keep_bps,
            FEE_DENOMINATOR as int,
            input_amount as int,
        );
    }
    let eff: u64 = (((input_amount as u128) * (keep_bps as u128)) / (FEE_DENOMINATOR as u128))
        as u64;
    let calc = LMSRCalculator { b, yes_shares, no_shares };
    if is_buying {
        let price = calc.calculate_price(is_yes)?;
        if price == 0 {
            return Err(MarketError::InvalidPrice);
        }
        mul_div(eff, PRECISION, price)
    } else {
        let q: u64 = if is_yes {
            yes_shares
        } else {
            no_shares
        };
        if eff > q {
            return Err(MarketError::InsufficientBalance);
        }
        let current = calc.calculate_cost()?;
        let shrunk_state = if is_yes {
            LMSRCalculator { b, yes_shares: q - eff, no_shares }
        } else {
            LMSRCalculator { b, yes_shares, no_shares: q - eff }
        };
        let shrunk = shrunk_state.calculate_cost()?;
        if current < shrunk {
            return Err(MarketError::InvalidCost);
        }
        Ok(current - shrunk)
    }
}

/// Quote a swap on the cost-function curve with the default liquidity
/// depth [`DEFAULT_B`].
pub fn calculate_lmsr_output(
    input_amount: u64,
    yes_shares: u64,
    no_shares: u64,
    is_buying: bool,
    is_yes: bool,
    fee_bps: u16,
) -> (r: Result<u64, MarketError>)
    ensures
        r == spec_lmsr_output(
            DEFAULT_B,
            input_amount,
            yes_shares,
            no_shares,
            is_buying,
            is_yes,
            fee_bps,
        ),
{
    lmsr_swap_output(DEFAULT_B, input_amount, yes_shares, no_shares, is_buying, is_yes, fee_bps)
}

/// The two instantaneous prices always cover the whole unit: whenever they
/// are defined, `price_yes + price_no` is `PRECISION` or `PRECISION - 1` —
/// the only loss is the final floor division's rounding.
pub proof fn lemma_price_normalization(c: LMSRCalculator)
    ensures
        spec_price(c, true) matches Ok(py)
            ==> (spec_price(c, false) matches Ok(pn)
                ==> PRECISION - 1 <= py + pn <= PRECISION),
{
    if spec_price(c, true) is Ok {
        let x_yes = spec_exponent_arg(c.yes_shares, c.b) as u64;
        let x_no = spec_exponent_arg(c.no_shares, c.b) as u64;
        let e_yes = exp_fx_spec(x_yes);
        let e_no = exp_fx_spec(x_no);
        lemma_exp_bounds(x_yes, EXP_TERMS as nat);
        lemma_exp_bounds(x_no, EXP_TERMS as nat);
        let mass = e_yes + e_no;
        let py = (e_yes * PRECISION) / mass;
        let pn = (e_no * PRECISION) / mass;
        let r_yes = (e_yes * PRECISION) % mass;
        let r_no = (e_no * PRECISION) % mass;
        assert(e_yes * PRECISION == mass * py + r_yes && 0 <= r_yes < mass) by (nonlinear_arith)
            requires
                mass >= 1,
                e_yes * PRECISION >= 0,
                py == (e_yes * PRECISION) / mass,
                r_yes == (e_yes * PRECISION) % mass,
        ;
        assert(e_no * PRECISION == mass * pn + r_no && 0 <= r_no < mass) by (nonlinear_arith)
            requires
                mass >= 1,
                e_no * PRECISION >= 0,
                pn == (e_no * PRECISION) / mass,
                r_no == (e_no * PRECISION) % mass,
        ;
        assert(PRECISION - 1 <= py + pn <= PRECISION) by (nonlinear_arith)
            requires
                mass == e_yes + e_no,
                mass >= 1,
                e_yes * PRECISION == mass * py + r_yes,
                e_no * PRECISION == mass * pn + r_no,
                0 <= r_yes < mass,
                0 <= r_no < mass,
        ;
    }
}

} // verus!
