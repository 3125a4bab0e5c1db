//! The constant-product pricing curve.
//!
//! Exchange between two reserves is modelled as `x * y = k`: for an input
//! `amount_in` into `reserve_in`, the fee is deducted first and the output is
//! `floor(effective_in * reserve_out / (reserve_in + effective_in))`. The
//! output reserve strictly decreases but never reaches zero, and the reserve
//! product never decreases (the fee is captured by the pool).

use vstd::prelude::*;

use crate::errors::MarketError;
use crate::fixed::FEE_DENOMINATOR;

verus! {

/// The part of `amount_in` that is economically consumed once the fee in
/// basis points has been removed: `floor(amount_in * (10_000 - fee) / 10_000)`.
pub open spec fn effective_in_spec(amount_in: u64, fee_bps: u16) -> int {
    (amount_in * (FEE_DENOMINATOR - fee_bps)) / (FEE_DENOMINATOR as int)
}

/// Output quoted by the constant-product rule for an effective input
/// `eff_in`: `floor(eff_in * reserve_out / (reserve_in + eff_in))`.
pub open spec fn cp_out_spec(reserve_in: u64, reserve_out: u64, eff_in: int) -> int {
    (eff_in * reserve_out) / (reserve_in + eff_in)
}

/// Quote a swap on the constant-product curve.
///
/// Returns exactly the floor-division output of the curve, and fails with
/// `NoLiquidityInPool` if and only if either reserve is empty. The output is
/// always strictly less than `reserve_out`, so the output reserve never
/// drains to zero.
pub fn constant_product_swap(
    reserve_in: u64,
    reserve_out: u64,
    amount_in: u64,
    fee_bps: u16,
) -> (r: Result<u64, MarketError>)
    requires
        fee_bps <= FEE_DENOMINATOR,
    ensures
        reserve_in == 0 || reserve_out == 0
            ==> r == Err::<u64, MarketError>(MarketError::NoLiquidityInPool),
        reserve_in > 0 && reserve_out > 0 ==> {
            let out = cp_out_spec(reserve_in, reserve_out, effective_in_spec(amount_in, fee_bps));
            r == Ok::<u64, MarketError>(out as u64) && out < reserve_out
        },
{
    if reserve_in == 0 || reserve_out == 0 {
        return Err(MarketError::NoLiquidityInPool);
    }
    let keep_bps: u64 = FEE_DENOMINATOR - (fee_bps as u64);
    proof {
        assert(amount_in * keep_bps <= u64::MAX * (FEE_DENOMINATOR as int)) by (nonlinear_arith)
            requires
                amount_in <= u64::MAX,
                0 <= keep_bps <= FEE_DENOMINATOR,
        ;
        assert((amount_in * keep_bps) / (FEE_DENOMINATOR as int) <= u64::MAX) by (nonlinear_arith)
            requires
                amount_in * keep_bps <= u64::MAX * (FEE_DENOMINATOR as int),
                FEE_DENOMINATOR > 0,
        ;
        assert((amount_in * keep_bps) / (FEE_DENOMINATOR as int) >= 0) by (nonlinear_arith)
            requires
                amount_in >= 0,
                keep_bps >= 0,
                FEE_DENOMINATOR > 0,
        ;
    }
    let eff: u64 = (((amount_in as u128) * (keep_bps as u128)) / (FEE_DENOMINATOR as u128)) as u64;
    proof {
        assert(eff == effective_in_spec(amount_in, fee_bps));
        assert(eff * reserve_out < (reserve_in + eff) * reserve_out) by (nonlinear_arith)
            requires
                reserve_in >= 1,
                reserve_out >= 1,
                eff >= 0,
        ;
        assert((eff * reserve_out) / (reserve_in + eff) < reserve_out) by (nonlinear_arith)
            requires
                eff * reserve_out < (reserve_in + eff) * reserve_out,
                reserve_in + eff > 0,
                reserve_out >= 1,
        ;
        assert((eff * reserve_out) / (reserve_in + eff) >= 0) by (nonlinear_arith)
            requires
                eff >= 0,
                reserve_out >= 0,
                reserve_in + eff > 0,
        ;
        assert(eff * reserve_out <= u64::MAX * u64::MAX) by (nonlinear_arith)
            requires
                eff <= u64::MAX,
                reserve_out <= u64::MAX,
        ;
    }
    let out: u64 =
        (((eff as u128) * (reserve_out as u128)) / ((reserve_in as u128) + (eff as u128))) as u64;
    Ok(out)
}

/// Fee capture never decreases the reserve product.
///
/// For any swap on the constant-product curve, the full `amount_in` enters
/// the input reserve while only the fee-reduced effective input prices the
/// output, so `reserve_in' * reserve_out' >= reserve_in * reserve_out`.
/// Applied to each swap of a sequence in turn, the product never decreases
/// over the whole sequence.
pub proof fn lemma_swap_preserves_product(
    reserve_in: u64,
    reserve_out: u64,
    amount_in: u64,
    fee_bps: u16,
)
    requires
        reserve_in >= 1,
        reserve_out >= 1,
        fee_bps <= FEE_DENOMINATOR,
    ensures
        ({
            let out = cp_out_spec(reserve_in, reserve_out, effective_in_spec(amount_in, fee_bps));
            0 <= out < reserve_out
                && (reserve_in + amount_in) * (reserve_out - out) >= reserve_in * reserve_out
        }),
{
    let e = effective_in_spec(amount_in, fee_bps);
    let out = cp_out_spec(reserve_in, reserve_out, e);
    assert(0 <= e <= amount_in) by (nonlinear_arith)
        requires
            e == (amount_in * (FEE_DENOMINATOR - fee_bps)) / (FEE_DENOMINATOR as int),
            0 <= amount_in,
            0 <= FEE_DENOMINATOR - fee_bps <= FEE_DENOMINATOR,
            FEE_DENOMINATOR > 0,
    ;
    assert(0 <= out < reserve_out && out * (reserve_in + e) <= e * reserve_out) by (nonlinear_arith)
        requires
            out == (e * reserve_out) / (reserve_in + e),
            reserve_in >= 1,
            reserve_out >= 1,
            e >= 0,
    ;
    assert((reserve_in + e) * (reserve_out - out) >= reserve_in * reserve_out) by (nonlinear_arith)
        requires
            out * (reserve_in + e) <= e * reserve_out,
            out <= reserve_out,
            reserve_in >= 1,
            reserve_out >= 1,
            e >= 0,
    ;
    assert((reserve_in + amount_in) * (reserve_out - out)
        >= (reserve_in + e) * (reserve_out - out)) by (nonlinear_arith)
        requires
            0 <= e <= amount_in,
            0 <= out <= reserve_out,
    ;
}

} // verus!
