use prediction_market_amm::errors::MarketError;
use prediction_market_amm::liquidity::add_liquidity;
use prediction_market_amm::market::{CurveKind, Market, Side};

const END_TIME: i64 = 1_000;
const FUTURE: i64 = 10_000;
const PRECISION: u64 = 1_000_000;

fn seeded_market() -> Market {
    let mut m = Market::initialize(
        3,
        "pool",
        100,
        END_TIME,
        Some(42),
        CurveKind::ConstantProduct,
        0,
    )
    .unwrap();
    m.add_liquidity(1_000_000, 500_000, 500_000, 0, FUTURE).unwrap();
    m
}

#[test]
fn ratio_helper_prices_at_the_minimum_ratio() {
    // equal pools: every ratio is 0.5, so every mint is half its pool
    let d = add_liquidity(
        500_000, 500_000, 500_000, 1_000_000, 1_000_000, 1_000_000, 1_000_000, PRECISION,
    )
    .unwrap();
    assert_eq!(d.usdc_amount, 500_000);
    assert_eq!(d.yes_amount, 500_000);
    assert_eq!(d.no_amount, 500_000);
    assert_eq!(d.lp_tokens, 500_000);
}

#[test]
fn ratio_helper_never_mints_from_the_nominal_request() {
    // the stable ratio (1/10) is the minimum; the realized outcome mints
    // follow it even though the nominal contributions would allow more
    let d = add_liquidity(
        100_000, 100_000, 100_000, 1_000_000, 200_000, 400_000, 1_000_000, PRECISION,
    )
    .unwrap();
    assert_eq!(d.lp_tokens, 100_000);
    assert_eq!(d.yes_amount, 20_000);
    assert_eq!(d.no_amount, 40_000);
}

#[test]
fn ratio_helper_rejects_zero_pool() {
    let r = add_liquidity(1, 1, 1, 0, 1, 1, 1, PRECISION);
    assert_eq!(r.unwrap_err(), MarketError::NoLiquidityInPool);
}

#[test]
fn ratio_helper_rejects_scaled_overflow() {
    let r = add_liquidity(u64::MAX, 1, 1, 1, 1, 1, 1, PRECISION);
    assert_eq!(r.unwrap_err(), MarketError::Overflow);
}

#[test]
fn second_deposit_mints_proportionally() {
    let mut m = seeded_market();
    // reserves (stable 1_000_000, yes 500_000, no 500_000), lp 1_000_000;
    // ratios: stable 0.5, yes 1.0, no 1.0 -> minimum 0.5
    let d = m.add_liquidity(500_000, 300_000, 300_000, 0, FUTURE).unwrap();
    assert_eq!(d.lp_tokens, 500_000);
    assert_eq!(d.yes_amount, 250_000);
    assert_eq!(d.no_amount, 250_000);
    assert_eq!(m.reserve_stable, 1_500_000);
    assert_eq!(m.reserve_yes, 750_000);
    assert_eq!(m.reserve_no, 750_000);
    assert_eq!(m.supply_lp, 1_500_000);
    assert_eq!(m.total_liquidity, 1_500_000);
}

#[test]
fn deposit_enforces_outcome_bounds() {
    let mut m = seeded_market();
    let r = m.add_liquidity(500_000, 249_999, 300_000, 0, FUTURE);
    assert_eq!(r.unwrap_err(), MarketError::SlippageExceeded);
}

#[test]
fn deposit_rejects_zero_amounts() {
    let mut m = seeded_market();
    assert_eq!(
        m.add_liquidity(0, 1, 1, 0, FUTURE).unwrap_err(),
        MarketError::ZeroBalance
    );
    assert_eq!(
        m.add_liquidity(1, 0, 1, 0, FUTURE).unwrap_err(),
        MarketError::ZeroBalance
    );
    assert_eq!(
        m.add_liquidity(1, 1, 0, 0, FUTURE).unwrap_err(),
        MarketError::ZeroBalance
    );
}

#[test]
fn deposit_rejects_expired_deadline() {
    let mut m = seeded_market();
    let r = m.add_liquidity(1, 1, 1, FUTURE + 1, FUTURE);
    assert_eq!(r.unwrap_err(), MarketError::OfferExpired);
}

#[test]
fn withdrawal_pays_the_proportional_share() {
    let mut m = seeded_market();
    let w = m.remove_liquidity(250_000, 0, 0, 0, FUTURE).unwrap();
    // a quarter of the LP supply: a quarter of every reserve
    assert_eq!(w.stable_out, 250_000);
    assert_eq!(w.yes_out, 125_000);
    assert_eq!(w.no_out, 125_000);
    assert_eq!(m.reserve_stable, 750_000);
    assert_eq!(m.supply_lp, 750_000);
    assert_eq!(m.total_liquidity, 750_000);
}

#[test]
fn full_withdrawal_drains_the_pool_exactly() {
    let mut m = seeded_market();
    let w = m.remove_liquidity(1_000_000, 0, 0, 0, FUTURE).unwrap();
    assert_eq!(w.stable_out, 1_000_000);
    assert_eq!(w.yes_out, 500_000);
    assert_eq!(w.no_out, 500_000);
    assert_eq!(m.reserve_stable, 0);
    assert_eq!(m.reserve_yes, 0);
    assert_eq!(m.reserve_no, 0);
    assert_eq!(m.supply_lp, 0);
}

#[test]
fn exact_ratio_round_trip_returns_deposits_whole() {
    let mut m = seeded_market();
    // reserves (1_000_000, 500_000, 500_000), lp 1_000_000: the 0.5 stable
    // ratio is the minimum and divides every balance evenly, so the round
    // trip loses nothing at all
    let d = m.add_liquidity(500_000, 300_000, 300_000, 0, FUTURE).unwrap();
    let w = m.remove_liquidity(d.lp_tokens, 0, 0, 0, FUTURE).unwrap();
    assert_eq!(w.stable_out, 500_000);
    assert_eq!(w.yes_out, d.yes_amount);
    assert_eq!(w.no_out, d.no_amount);
}

#[test]
fn round_trip_never_returns_more_than_deposited() {
    let mut m = seeded_market();
    // a deliberately skewed pool so that every division rounds
    m.reserve_stable = 999_983;
    m.reserve_yes = 333_331;
    m.reserve_no = 777_771;
    let d = m.add_liquidity(123_457, u64::MAX, u64::MAX, 0, FUTURE).unwrap();
    let w = m.remove_liquidity(d.lp_tokens, 0, 0, 0, FUTURE).unwrap();
    assert!(w.stable_out <= d.usdc_amount);
    assert!(w.yes_out <= d.yes_amount);
    assert!(w.no_out <= d.no_amount);
}

#[test]
fn withdrawal_of_more_than_supply_fails_without_state_change() {
    let mut m = seeded_market();
    let before_stable = m.reserve_stable;
    let before_lp = m.supply_lp;
    let r = m.remove_liquidity(1_000_001, 0, 0, 0, FUTURE);
    assert_eq!(r.unwrap_err(), MarketError::InsufficientBalance);
    assert_eq!(m.reserve_stable, before_stable);
    assert_eq!(m.supply_lp, before_lp);
}

#[test]
fn withdrawal_enforces_minimum_bounds() {
    let mut m = seeded_market();
    let r = m.remove_liquidity(250_000, 125_001, 0, 0, FUTURE);
    assert_eq!(r.unwrap_err(), MarketError::SlippageExceeded);
}

#[test]
fn withdrawal_rejects_zero_amount() {
    let mut m = seeded_market();
    let r = m.remove_liquidity(0, 0, 0, 0, FUTURE);
    assert_eq!(r.unwrap_err(), MarketError::ZeroBalance);
}

#[test]
fn locked_pool_rejects_liquidity_changes() {
    let mut m = seeded_market();
    m.lock(42).unwrap();
    assert_eq!(
        m.add_liquidity(1, 1, 1, 0, FUTURE).unwrap_err(),
        MarketError::PoolLocked
    );
    assert_eq!(
        m.remove_liquidity(1, 0, 0, 0, FUTURE).unwrap_err(),
        MarketError::PoolLocked
    );
}
