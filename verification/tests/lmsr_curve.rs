use prediction_market_amm::errors::MarketError;
use prediction_market_amm::fixed::PRECISION;
use prediction_market_amm::lmsr::{calculate_lmsr_output, LMSRCalculator, DEFAULT_B};
use prediction_market_amm::market::{CurveKind, Market, Side};
use prediction_market_amm::swap::TradeDirection;

#[test]
fn new_keeps_the_raw_quantities() {
    let c = LMSRCalculator::new(DEFAULT_B, 5, 7);
    assert_eq!(c.b, DEFAULT_B);
    assert_eq!(c.yes_shares, 5);
    assert_eq!(c.no_shares, 7);
}

#[test]
fn symmetric_prices_are_half_each() {
    let c = LMSRCalculator::new(DEFAULT_B, 0, 0);
    assert_eq!(c.calculate_price(true), Ok(500_000));
    assert_eq!(c.calculate_price(false), Ok(500_000));
}

#[test]
fn skewed_prices_favor_the_loaded_side() {
    let c = LMSRCalculator::new(DEFAULT_B, 1_000_000_000, 0);
    let yes = c.calculate_price(true).unwrap();
    let no = c.calculate_price(false).unwrap();
    assert_eq!(yes, 731_058);
    assert_eq!(no, 268_941);
    assert!(yes > no);
}

#[test]
fn prices_cover_the_unit_within_one_step() {
    for (qy, qn) in [(0u64, 0u64), (1_000_000_000, 0), (3_000_000_000, 1_999_999_999)] {
        let c = LMSRCalculator::new(DEFAULT_B, qy, qn);
        let sum = c.calculate_price(true).unwrap() + c.calculate_price(false).unwrap();
        assert!(PRECISION - 1 <= sum && sum <= PRECISION, "sum was {sum}");
    }
}

#[test]
fn cost_of_the_empty_book_is_b_ln_two() {
    let c = LMSRCalculator::new(DEFAULT_B, 0, 0);
    assert_eq!(c.calculate_cost(), Ok(693_149_000));
}

#[test]
fn cost_grows_with_outstanding_shares() {
    let c = LMSRCalculator::new(DEFAULT_B, 1_000_000_000, 0);
    assert_eq!(c.calculate_cost(), Ok(1_313_262_000));
}

#[test]
fn cost_to_buy_is_the_cost_difference() {
    let c = LMSRCalculator::new(DEFAULT_B, 0, 0);
    // C(1_000_000_000, 0) - C(0, 0) = 1_313_262_000 - 693_149_000
    assert_eq!(c.calculate_cost_to_buy(1_000_000_000, true), Ok(620_113_000));
}

#[test]
fn cost_rejects_zero_depth() {
    let c = LMSRCalculator::new(0, 1, 1);
    assert_eq!(c.calculate_cost(), Err(MarketError::NoLiquidityInPool));
    assert_eq!(c.calculate_price(true), Err(MarketError::NoLiquidityInPool));
}

#[test]
fn cost_rejects_exponent_beyond_domain() {
    // 33 whole units exceed the exponential's 32-unit domain
    let c = LMSRCalculator::new(DEFAULT_B, 33_000_000_000, 0);
    assert_eq!(c.calculate_cost(), Err(MarketError::MathOverflow));
}

#[test]
fn buy_output_divides_by_the_price() {
    // fee 1%: effective 99_000; price 0.5; output 198_000 shares
    let out = calculate_lmsr_output(100_000, 0, 0, true, true, 100);
    assert_eq!(out, Ok(198_000));
}

#[test]
fn sell_output_is_the_cost_drop() {
    // selling 100_000_000 yes at 1% fee: effective 99_000_000;
    // C(1_000_000_000, 0) - C(901_000_000, 0)
    let out = calculate_lmsr_output(100_000_000, 1_000_000_000, 0, false, true, 100);
    assert_eq!(out, Ok(71_397_000));
}

#[test]
fn sell_cannot_drive_shares_negative() {
    let out = calculate_lmsr_output(200, 100, 500, false, true, 0);
    assert_eq!(out, Err(MarketError::InsufficientBalance));
}

#[test]
fn buy_rejects_a_vanishing_price() {
    // the NO side carries the whole exponential mass, so the YES price
    // floors to zero and the quote is refused rather than divided by it
    let out = calculate_lmsr_output(100_000, 0, 32_000_000_000, true, true, 0);
    assert_eq!(out, Err(MarketError::InvalidPrice));
}

#[test]
fn cost_to_buy_rejects_a_negative_cost_delta() {
    // the fixed-iteration logarithm is not exactly monotone; where the
    // cost function would step downward the quote is refused
    let c = LMSRCalculator::new(DEFAULT_B, 587_048_592, 1_217_106_003);
    assert_eq!(c.calculate_cost_to_buy(989, true), Err(MarketError::InvalidCost));
}

#[test]
fn output_rejects_invalid_fee() {
    let out = calculate_lmsr_output(100, 0, 0, true, true, 10_001);
    assert_eq!(out, Err(MarketError::InvalidFee));
}

#[test]
fn cost_function_market_trades_through_the_curve() {
    let mut m = Market::initialize(
        11,
        "lmsr-market",
        100,
        1_000,
        None,
        CurveKind::CostFunction(DEFAULT_B),
        0,
    )
    .unwrap();
    m.add_liquidity(1_000_000_000, 500_000_000, 500_000_000, 0, 10_000).unwrap();
    // reserves: stable 1_000_000_000, yes 500_000_000, no 500_000_000
    let out = m.swap(Side::Yes, TradeDirection::Buy, 100_000, 0, 0, 10_000).unwrap();
    assert!(out > 0);
    assert_eq!(m.reserve_stable, 1_000_100_000);
    assert_eq!(m.reserve_yes, 500_000_000 - out);
    assert_eq!(m.reserve_no, 500_000_000);
}

#[test]
fn cost_function_market_rejects_empty_pool() {
    let mut m = Market::initialize(
        12,
        "lmsr-empty",
        100,
        1_000,
        None,
        CurveKind::CostFunction(DEFAULT_B),
        0,
    )
    .unwrap();
    let r = m.swap(Side::Yes, TradeDirection::Buy, 100_000, 0, 0, 10_000);
    assert_eq!(r.unwrap_err(), MarketError::NoLiquidityInPool);
}
