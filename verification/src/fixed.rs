//! Checked fixed-point arithmetic.
//!
//! Every helper either returns the exact integer result or reports an
//! overflow / underflow error; there is no silent wraparound. Quantities are
//! denominated in the smallest unit of their asset at [`PRECISION`] units per
//! whole token, so `1.0` is represented by `PRECISION`.

use vstd::prelude::*;

use crate::errors::MarketError;

verus! {

/// Number of smallest units in one whole token: fixed-point scale of 10^6.
pub const PRECISION: u64 = 1_000_000;

/// Fee denominator: fees are quoted in basis points, 10_000 = 100%.
pub const FEE_DENOMINATOR: u64 = 10_000;

/// Checked addition: the exact sum, or `Overflow` when it does not fit.
pub fn safe_add(a: u64, b: u64) -> (r: Result<u64, MarketError>)
    ensures
        a + b <= u64::MAX ==> r == Ok::<u64, MarketError>((a + b) as u64),
        a + b > u64::MAX ==> r == Err::<u64, MarketError>(MarketError::Overflow),
{
    match a.checked_add(b) {
        Some(v) => Ok(v),
        None => Err(MarketError::Overflow),
    }
}

/// Checked subtraction: the exact difference, or `Underflow` when `b > a`.
pub fn safe_sub(a: u64, b: u64) -> (r: Result<u64, MarketError>)
    ensures
        b <= a ==> r == Ok::<u64, MarketError>((a - b) as u64),
        b > a ==> r == Err::<u64, MarketError>(MarketError::Underflow),
{
    match a.checked_sub(b) {
        Some(v) => Ok(v),
        None => Err(MarketError::Underflow),
    }
}

/// Checked multiplication: the exact product, or `Overflow` when it does not
/// fit.
pub fn safe_mul(a: u64, b: u64) -> (r: Result<u64, MarketError>)
    ensures
        a * b <= u64::MAX ==> r == Ok::<u64, MarketError>((a * b) as u64),
        a * b > u64::MAX ==> r == Err::<u64, MarketError>(MarketError::Overflow),
{
    match a.checked_mul(b) {
        Some(v) => Ok(v),
        None => Err(MarketError::Overflow),
    }
}

/// Checked division: the exact floor quotient, or `Overflow` for a zero
/// divisor.
pub fn safe_div(a: u64, b: u64) -> (r: Result<u64, MarketError>)
    ensures
        b != 0 ==> r == Ok::<u64, MarketError>((a as int / b as int) as u64),
        b == 0 ==> r == Err::<u64, MarketError>(MarketError::Overflow),
{
    match a.checked_div(b) {
        Some(v) => Ok(v),
        None => Err(MarketError::Overflow),
    }
}

/// `floor(a * b / c)` as a mathematical integer; meaningful only for `c > 0`.
pub open spec fn mul_div_spec(a: u64, b: u64, c: u64) -> int {
    (a * b) / (c as int)
}

/// `floor(a * b / c)` computed through a 128-bit intermediate, so the product
/// itself cannot overflow; fails with `Overflow` when the divisor is zero or
/// the quotient does not fit in 64 bits.
pub fn mul_div(a: u64, b: u64, c: u64) -> (r: Result<u64, MarketError>)
    ensures
        c != 0 && mul_div_spec(a, b, c) <= u64::MAX
            ==> r == Ok::<u64, MarketError>(mul_div_spec(a, b, c) as u64),
        c == 0 || mul_div_spec(a, b, c) > u64::MAX
            ==> r == Err::<u64, MarketError>(MarketError::Overflow),
{
    if c == 0 {
        return Err(MarketError::Overflow);
    }
    proof {
        assert(a * b <= u64::MAX * u64::MAX) by (nonlinear_arith)
            requires
                a <= u64::MAX,
                b <= u64::MAX,
        ;
    }
    let wide: u128 = (a as u128) * (b as u128);
    let q: u128 = wide / (c as u128);
    if q > u64::MAX as u128 {
        Err(MarketError::Overflow)
    } else {
        Ok(q as u64)
    }
}

/// Floor division bounds: `d * (x / d)` is within `d` below `x`, and the
/// quotient of non-negative values never exceeds the numerator.
pub proof fn lemma_div_bounds(x: int, d: int)
    requires
        x >= 0,
        d >= 1,
    ensures
        d * (x / d) <= x,
        x < d * (x / d) + d,
        0 <= x / d <= x,
{
    assert(d * (x / d) <= x && x < d * (x / d) + d && 0 <= x / d <= x) by (nonlinear_arith)
        requires
            x >= 0,
            d >= 1,
    ;
}

/// A numerator at most `d * b` floor-divides to at most `b`.
pub proof fn lemma_div_at_most(x: int, d: int, b: int)
    requires
        x >= 0,
        d >= 1,
        b >= 0,
        x <= d * b,
    ensures
        x / d <= b,
{
    assert(x / d <= b) by (nonlinear_arith)
        requires
            x >= 0,
            d >= 1,
            b >= 0,
            x <= d * b,
    ;
}

/// A numerator strictly below `d * b` floor-divides to strictly below `b`.
pub proof fn lemma_div_below(x: int, d: int, b: int)
    requires
        x >= 0,
        d >= 1,
        x < d * b,
    ensures
        x / d < b,
{
    assert(x / d < b) by (nonlinear_arith)
        requires
            x >= 0,
            d >= 1,
            x < d * b,
    ;
}

/// Largest fixed-point argument the exponential accepts: 32.0 whole units.
/// Beyond it the truncated series would no longer fit 64 bits.
pub const EXP_INPUT_MAX: u64 = 32_000_000;

/// Number of Taylor-series terms past the constant one; fixed so that every
/// replica computes bit-identical results.
pub const EXP_TERMS: u64 = 10;

/// Largest value the exponential can return for an argument within
/// [`EXP_INPUT_MAX`]: the sum of the per-term ceilings below.
pub const EXP_RESULT_CAP: u64 = 443_134_196_247_686;

/// Term `i` of the truncated fixed-point Taylor series of `e^(x / PRECISION)`:
/// term 0 is `1.0` and term `i` is `term(i-1) * x / (PRECISION * i)`, every
/// division a floor.
pub open spec fn exp_term(x: u64, i: nat) -> int
    decreases i,
{
    if i == 0 {
        PRECISION as int
    } else {
        (exp_term(x, (i - 1) as nat) * x) / (PRECISION * i)
    }
}

/// Sum of the series terms `0 ..= n`.
pub open spec fn exp_series(x: u64, n: nat) -> int
    decreases n,
{
    if n == 0 {
        exp_term(x, 0)
    } else {
        exp_series(x, (n - 1) as nat) + exp_term(x, n)
    }
}

/// The deterministic fixed-point exponential: the truncated Taylor series
/// with [`EXP_TERMS`] terms past the constant one.
pub open spec fn exp_fx_spec(x: u64) -> int {
    exp_series(x, EXP_TERMS as nat)
}

/// Ceiling on term `i` of the series for any argument within
/// [`EXP_INPUT_MAX`]; each entry satisfies
/// `cap(i-1) * EXP_INPUT_MAX <= cap(i) * PRECISION * i`.
pub open spec fn exp_term_cap(i: nat) -> int {
    if i == 0 {
        1_000_000
    } else if i == 1 {
        32_000_000
    } else if i == 2 {
        512_000_000
    } else if i == 3 {
        5_461_333_334
    } else if i == 4 {
        43_690_666_672
    } else if i == 5 {
        279_620_266_701
    } else if i == 6 {
        1_491_308_089_072
    } else if i == 7 {
        6_817_408_407_187
    } else if i == 8 {
        27_269_633_628_748
    } else if i == 9 {
        96_958_697_346_660
    } else {
        310_267_831_509_312
    }
}

/// Running total of the term ceilings, so the whole series is bounded.
pub open spec fn exp_series_cap(n: nat) -> int {
    if n == 0 {
        1_000_000
    } else if n == 1 {
        33_000_000
    } else if n == 2 {
        545_000_000
    } else if n == 3 {
        6_006_333_334
    } else if n == 4 {
        49_697_000_006
    } else if n == 5 {
        329_317_266_707
    } else if n == 6 {
        1_820_625_355_779
    } else if n == 7 {
        8_638_033_762_966
    } else if n == 8 {
        35_907_667_391_714
    } else if n == 9 {
        132_866_364_738_374
    } else {
        443_134_196_247_686
    }
}

/// Every series term is non-negative and below its ceiling, and every
/// partial sum lies between `1.0` and the running ceiling.
pub proof fn lemma_exp_bounds(x: u64, n: nat)
    requires
        x <= EXP_INPUT_MAX,
        n <= EXP_TERMS,
    ensures
        0 <= exp_term(x, n) <= exp_term_cap(n),
        PRECISION <= exp_series(x, n) <= exp_series_cap(n),
    decreases n,
{
    if n == 0 {
    } else {
        lemma_exp_bounds(x, (n - 1) as nat);
        let prev = exp_term(x, (n - 1) as nat);
        assert(0 <= prev * x <= exp_term_cap((n - 1) as nat) * (EXP_INPUT_MAX as int))
            by (nonlinear_arith)
            requires
                0 <= prev <= exp_term_cap((n - 1) as nat),
                0 <= x <= EXP_INPUT_MAX,
        ;
        assert(exp_term_cap((n - 1) as nat) * (EXP_INPUT_MAX as int)
            <= exp_term_cap(n) * (PRECISION * n)) by {
            if n == 1 {
                assert(1_000_000 * 32_000_000 <= 32_000_000 * (1_000_000 * 1));
            } else if n == 2 {
                assert(32_000_000 * 32_000_000 <= 512_000_000 * (1_000_000 * 2));
            } else if n == 3 {
                assert(512_000_000 * 32_000_000 <= 5_461_333_334 * (1_000_000 * 3));
            } else if n == 4 {
                assert(5_461_333_334 * 32_000_000 <= 43_690_666_672 * (1_000_000 * 4));
            } else if n == 5 {
                assert(43_690_666_672 * 32_000_000 <= 279_620_266_701 * (1_000_000 * 5));
            } else if n == 6 {
                assert(279_620_266_701 * 32_000_000 <= 1_491_308_089_072 * (1_000_000 * 6));
            } else if n == 7 {
                assert(1_491_308_089_072 * 32_000_000 <= 6_817_408_407_187 * (1_000_000 * 7));
            } else if n == 8 {
                assert(6_817_408_407_187 * 32_000_000 <= 27_269_633_628_748 * (1_000_000 * 8));
            } else if n == 9 {
                assert(27_269_633_628_748 * 32_000_000 <= 96_958_697_346_660 * (1_000_000 * 9));
            } else {
                assert(n == 10);
                assert(96_958_697_346_660 * 32_000_000 <= 310_267_831_509_312 * (1_000_000 * 10));
            }
        };
        lemma_div_bounds(prev * x, PRECISION * n);
        lemma_div_at_most(prev * x, PRECISION * n, exp_term_cap(n));
    }
}

/// The deterministic fixed-point exponential.
///
/// Evaluates the truncated Taylor series exactly as [`exp_fx_spec`] states
/// it, in a fixed number of iterations, so the result is bit-identical on
/// every platform. The result is at least `1.0` and at most
/// [`EXP_RESULT_CAP`].
pub fn exp_fx(x: u64) -> (r: u64)
    requires
        x <= EXP_INPUT_MAX,
    ensures
        r == exp_fx_spec(x),
        PRECISION <= r <= EXP_RESULT_CAP,
{
    let mut sum: u64 = PRECISION;
    let mut term: u64 = PRECISION;
    let mut i: u64 = 1;
    while i <= EXP_TERMS
        invariant
            1 <= i <= EXP_TERMS + 1,
            x <= EXP_INPUT_MAX,
            term == exp_term(x, (i - 1) as nat),
            sum == exp_series(x, (i - 1) as nat),
        decreases EXP_TERMS + 1 - i,
    {
        proof {
            lemma_exp_bounds(x, (i - 1) as nat);
            lemma_exp_bounds(x, i as nat);
            assert(term * x <= u64::MAX * u64::MAX) by (nonlinear_arith)
                requires
                    term <= u64::MAX,
                    x <= u64::MAX,
            ;
        }
        let denom: u64 = PRECISION * i;
        let wide: u128 = (term as u128) * (x as u128);
        let next: u128 = wide / (denom as u128);
        term = next as u64;
        sum = sum + term;
        i = i + 1;
    }
    proof {
        lemma_exp_bounds(x, EXP_TERMS as nat);
    }
    sum
}

/// One Newton refinement step of the fixed-point logarithm: the current
/// guess moves by `2 * (x - exp(guess)) / (x + exp(guess))`, evaluated
/// against the deterministic exponential with floor divisions on the
/// magnitude.
pub open spec fn ln_step_spec(x: u64, g: u64) -> int {
    let e = exp_fx_spec(g);
    if x >= e {
        g + (2 * (x - e) * PRECISION) / (x + e)
    } else {
        g - (2 * (e - x) * PRECISION) / (x + e)
    }
}

/// `n` Newton steps from guess `g`; `None` when a step leaves the range on
/// which the exponential is defined.
pub open spec fn ln_iter_spec(x: u64, g: u64, n: nat) -> Option<u64>
    decreases n,
{
    if n == 0 {
        Some(g)
    } else {
        let g1 = ln_step_spec(x, g);
        if 0 <= g1 <= EXP_INPUT_MAX {
            ln_iter_spec(x, g1 as u64, (n - 1) as nat)
        } else {
            None
        }
    }
}

/// The deterministic fixed-point logarithm: [`EXP_TERMS`] Newton steps
/// seeded from `1.0`; `None` for a zero argument or when a step escapes the
/// exponential's domain.
pub open spec fn ln_fx_spec(x: u64) -> Option<u64> {
    if x == 0 {
        None
    } else {
        ln_iter_spec(x, PRECISION, EXP_TERMS as nat)
    }
}

/// The deterministic fixed-point natural logarithm.
///
/// Refines the seed `1.0` against [`exp_fx`] for a fixed number of Newton
/// steps, exactly as [`ln_fx_spec`] states; fails with `MathOverflow` on a
/// zero argument or when a step escapes the exponential's domain.
pub fn ln_fx(x: u64) -> (r: Result<u64, MarketError>)
    ensures
        match ln_fx_spec(x) {
            Some(v) => r == Ok::<u64, MarketError>(v) && v <= EXP_INPUT_MAX,
            None => r == Err::<u64, MarketError>(MarketError::MathOverflow),
        },
{
    if x == 0 {
        return Err(MarketError::MathOverflow);
    }
    let mut guess: u64 = PRECISION;
    let mut n: u64 = 0;
    while n < EXP_TERMS
        invariant
            0 <= n <= EXP_TERMS,
            x >= 1,
            guess <= EXP_INPUT_MAX,
            ln_iter_spec(x, guess, (EXP_TERMS - n) as nat) == ln_fx_spec(x),
        decreases EXP_TERMS - n,
    {
        let e = exp_fx(guess);
        if x >= e {
            let num: u128 = 2 * ((x - e) as u128) * (PRECISION as u128);
            let den: u128 = (x as u128) + (e as u128);
            let delta: u128 = num / den;
            if delta > ((EXP_INPUT_MAX - guess) as u128) {
                return Err(MarketError::MathOverflow);
            }
            guess = guess + (delta as u64);
        } else {
            let num: u128 = 2 * ((e - x) as u128) * (PRECISION as u128);
            let den: u128 = (x as u128) + (e as u128);
            let delta: u128 = num / den;
            if delta > (guess as u128) {
                return Err(MarketError::MathOverflow);
            }
            guess = guess - (delta as u64);
        }
        n = n + 1;
    }
    Ok(guess)
}

} // verus!
