use prediction_market_amm::errors::MarketError;
use prediction_market_amm::fixed::{
    exp_fx, ln_fx, mul_div, safe_add, safe_div, safe_mul, safe_sub, EXP_INPUT_MAX, PRECISION,
};

#[test]
fn safe_add_returns_exact_sum() {
    assert_eq!(safe_add(2, 3), Ok(5));
    assert_eq!(safe_add(0, u64::MAX), Ok(u64::MAX));
}

#[test]
fn safe_add_reports_overflow() {
    assert_eq!(safe_add(u64::MAX, 1), Err(MarketError::Overflow));
}

#[test]
fn safe_sub_returns_exact_difference() {
    assert_eq!(safe_sub(10, 4), Ok(6));
    assert_eq!(safe_sub(4, 4), Ok(0));
}

#[test]
fn safe_sub_reports_underflow() {
    assert_eq!(safe_sub(3, 4), Err(MarketError::Underflow));
}

#[test]
fn safe_mul_returns_exact_product() {
    assert_eq!(safe_mul(123, 456), Ok(56088));
}

#[test]
fn safe_mul_reports_overflow() {
    assert_eq!(safe_mul(u64::MAX, 2), Err(MarketError::Overflow));
}

#[test]
fn safe_div_floors() {
    assert_eq!(safe_div(7, 2), Ok(3));
}

#[test]
fn safe_div_rejects_zero_divisor() {
    assert_eq!(safe_div(7, 0), Err(MarketError::Overflow));
}

#[test]
fn mul_div_uses_wide_intermediate() {
    // the product overflows 64 bits but the quotient does not
    assert_eq!(mul_div(u64::MAX, 1_000_000, 2_000_000), Ok(u64::MAX / 2));
    assert_eq!(mul_div(10, 20, 3), Ok(66));
}

#[test]
fn mul_div_reports_unrepresentable_quotient() {
    assert_eq!(mul_div(u64::MAX, 2, 1), Err(MarketError::Overflow));
    assert_eq!(mul_div(1, 1, 0), Err(MarketError::Overflow));
}

#[test]
fn exp_of_zero_is_one() {
    assert_eq!(exp_fx(0), PRECISION);
}

#[test]
fn exp_of_one_matches_truncated_series() {
    // ten Taylor terms of e at 1.0, every division floored
    assert_eq!(exp_fx(PRECISION), 2_718_277);
}

#[test]
fn exp_at_domain_edge_is_exact() {
    assert_eq!(exp_fx(EXP_INPUT_MAX), 443_134_196_165_000);
}

#[test]
fn ln_of_zero_fails() {
    assert_eq!(ln_fx(0), Err(MarketError::MathOverflow));
}

#[test]
fn ln_of_two_matches_newton_refinement() {
    assert_eq!(ln_fx(2 * PRECISION), Ok(693_149));
}

#[test]
fn ln_inverts_exp_at_one() {
    let e = exp_fx(PRECISION);
    assert_eq!(ln_fx(e), Ok(PRECISION));
}
