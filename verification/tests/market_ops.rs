use prediction_market_amm::errors::MarketError;
use prediction_market_amm::market::{CurveKind, Market, Side};
use prediction_market_amm::swap::TradeDirection;

const END_TIME: i64 = 1_000;
const FUTURE: i64 = 10_000;

fn open_market(fee: u16) -> Market {
    Market::initialize(
        7,
        "test-market",
        fee,
        END_TIME,
        Some(42),
        CurveKind::ConstantProduct,
        0,
    )
    .expect("valid parameters")
}

#[test]
fn initialize_rejects_excessive_fee() {
    let r = Market::initialize(1, "m", 10_001, END_TIME, None, CurveKind::ConstantProduct, 0);
    assert_eq!(r.unwrap_err(), MarketError::InvalidFee);
}

#[test]
fn initialize_rejects_past_end_time() {
    let r = Market::initialize(1, "m", 0, 5, None, CurveKind::ConstantProduct, 5);
    assert_eq!(r.unwrap_err(), MarketError::OfferExpired);
}

#[test]
fn initialize_rejects_long_name() {
    let name = "123456789012345678901234567890123"; // 33 bytes
    let r = Market::initialize(1, name, 0, END_TIME, None, CurveKind::ConstantProduct, 0);
    assert_eq!(r.unwrap_err(), MarketError::InvalidAmount);
}

#[test]
fn initialize_starts_empty_and_open() {
    let m = open_market(100);
    assert_eq!(m.fee, 100);
    assert!(!m.locked);
    assert!(!m.settled);
    assert_eq!(m.resolved_outcome, None);
    assert_eq!(m.supply_lp, 0);
    assert_eq!(m.reserve_stable, 0);
    assert_eq!(m.total_liquidity, 0);
}

#[test]
fn first_deposit_seeds_half_and_half() {
    let mut m = open_market(100);
    let d = m.add_liquidity(1_000_000, 500_000, 500_000, 0, FUTURE).unwrap();
    assert_eq!(d.yes_amount, 500_000);
    assert_eq!(d.no_amount, 500_000);
    assert_eq!(d.lp_tokens, 1_000_000);
    assert_eq!(m.reserve_stable, 1_000_000);
    assert_eq!(m.reserve_yes, 500_000);
    assert_eq!(m.reserve_no, 500_000);
    assert_eq!(m.supply_lp, 1_000_000);
    assert_eq!(m.total_liquidity, 1_000_000);
}

#[test]
fn swap_quotes_constant_product_output() {
    let mut m = open_market(100);
    m.reserve_stable = 1_000_000;
    m.reserve_yes = 1_000_000;
    m.reserve_no = 1_000_000;
    m.supply_lp = 1_000_000;
    // effective_in = 100_000 * 9_900 / 10_000 = 99_000;
    // out = floor(99_000 * 1_000_000 / 1_099_000) = 90_081
    let out = m.swap(Side::Yes, TradeDirection::Buy, 100_000, 0, 0, FUTURE).unwrap();
    assert_eq!(out, 90_081);
    assert_eq!(m.reserve_stable, 1_100_000);
    assert_eq!(m.reserve_yes, 909_919);
    assert_eq!(m.reserve_no, 1_000_000);
}

#[test]
fn swap_product_never_decreases() {
    let mut m = open_market(100);
    m.reserve_stable = 1_000_000;
    m.reserve_yes = 1_000_000;
    m.reserve_no = 1_000_000;
    m.supply_lp = 1_000_000;
    let mut product = (m.reserve_stable as u128) * (m.reserve_yes as u128);
    for amount in [100_000u64, 3, 250_000, 1] {
        m.swap(Side::Yes, TradeDirection::Buy, amount, 0, 0, FUTURE).unwrap();
        let next = (m.reserve_stable as u128) * (m.reserve_yes as u128);
        assert!(next >= product);
        product = next;
    }
    for amount in [50_000u64, 7, 120_000] {
        m.swap(Side::Yes, TradeDirection::Sell, amount, 0, 0, FUTURE).unwrap();
        let next = (m.reserve_stable as u128) * (m.reserve_yes as u128);
        assert!(next >= product);
        product = next;
    }
}

#[test]
fn swap_rejects_zero_amount_before_any_curve_math() {
    let mut m = open_market(100);
    // even with empty reserves the zero amount is rejected first
    let r = m.swap(Side::Yes, TradeDirection::Buy, 0, 0, 0, FUTURE);
    assert_eq!(r.unwrap_err(), MarketError::ZeroBalance);
}

#[test]
fn swap_rejects_empty_pool() {
    let mut m = open_market(100);
    let r = m.swap(Side::Yes, TradeDirection::Buy, 10, 0, 0, FUTURE);
    assert_eq!(r.unwrap_err(), MarketError::NoLiquidityInPool);
}

#[test]
fn swap_enforces_slippage_bound() {
    let mut m = open_market(100);
    m.reserve_stable = 1_000_000;
    m.reserve_yes = 1_000_000;
    m.reserve_no = 1_000_000;
    m.supply_lp = 1_000_000;
    let r = m.swap(Side::Yes, TradeDirection::Buy, 100_000, 90_082, 0, FUTURE);
    assert_eq!(r.unwrap_err(), MarketError::SlippageExceeded);
    // the boundary itself is accepted
    let out = m.swap(Side::Yes, TradeDirection::Buy, 100_000, 90_081, 0, FUTURE).unwrap();
    assert_eq!(out, 90_081);
}

#[test]
fn swap_rejects_expired_deadline() {
    let mut m = open_market(100);
    let r = m.swap(Side::Yes, TradeDirection::Buy, 10, 0, FUTURE + 1, FUTURE);
    assert_eq!(r.unwrap_err(), MarketError::OfferExpired);
}

#[test]
fn settle_before_end_time_fails() {
    let mut m = open_market(0);
    let r = m.settle(Side::Yes, END_TIME);
    assert_eq!(r.unwrap_err(), MarketError::MarketNotEnded);
    assert!(!m.settled);
}

#[test]
fn settle_records_outcome_once() {
    let mut m = open_market(0);
    m.settle(Side::Yes, END_TIME + 1).unwrap();
    assert!(m.settled);
    assert_eq!(m.resolved_outcome, Some(Side::Yes));
    let r = m.settle(Side::No, END_TIME + 2);
    assert_eq!(r.unwrap_err(), MarketError::MarketAlreadySettled);
    assert_eq!(m.resolved_outcome, Some(Side::Yes));
}

#[test]
fn settle_rejected_while_locked() {
    let mut m = open_market(0);
    m.lock(42).unwrap();
    let r = m.settle(Side::Yes, END_TIME + 1);
    assert_eq!(r.unwrap_err(), MarketError::PoolLocked);
}

#[test]
fn settled_market_rejects_all_mutations() {
    let mut m = open_market(0);
    m.add_liquidity(1_000_000, 500_000, 500_000, 0, FUTURE).unwrap();
    m.settle(Side::Yes, END_TIME + 1).unwrap();
    assert_eq!(
        m.add_liquidity(1, 1, 1, 0, FUTURE).unwrap_err(),
        MarketError::MarketAlreadySettled
    );
    assert_eq!(
        m.remove_liquidity(1, 0, 0, 0, FUTURE).unwrap_err(),
        MarketError::MarketAlreadySettled
    );
    assert_eq!(
        m.swap(Side::Yes, TradeDirection::Buy, 1, 0, 0, FUTURE).unwrap_err(),
        MarketError::MarketAlreadySettled
    );
    assert!(m.settled);
}

#[test]
fn claim_pays_pro_rata_share() {
    let mut m = open_market(0);
    m.supply_yes = 500_000;
    m.reserve_stable = 1_000_000;
    m.supply_lp = 1_000_000;
    m.settled = true;
    m.resolved_outcome = Some(Side::Yes);
    // floor(200_000 * 1_000_000 / 500_000) = 400_000
    assert_eq!(m.claim(Side::Yes, 200_000), Ok(400_000));
}

#[test]
fn claim_requires_settlement_and_winning_side() {
    let mut m = open_market(0);
    assert_eq!(m.claim(Side::Yes, 10).unwrap_err(), MarketError::MarketNotSettled);
    m.supply_yes = 500_000;
    m.supply_no = 500_000;
    m.reserve_stable = 1_000_000;
    m.supply_lp = 1_000_000;
    m.settled = true;
    m.resolved_outcome = Some(Side::Yes);
    assert_eq!(m.claim(Side::No, 10).unwrap_err(), MarketError::InvalidToken);
    assert_eq!(m.claim(Side::Yes, 0).unwrap_err(), MarketError::InsufficientBalance);
}

#[test]
fn claims_of_all_holders_fit_in_the_pool() {
    let mut m = open_market(0);
    m.supply_yes = 500_000;
    m.reserve_stable = 999_999;
    m.supply_lp = 1_000_000;
    m.settled = true;
    m.resolved_outcome = Some(Side::Yes);
    // three holders own the whole winning supply
    let holdings = [200_000u64, 200_000, 100_000];
    let mut paid: u64 = 0;
    for h in holdings {
        paid += m.claim(Side::Yes, h).unwrap();
    }
    assert!(paid <= m.reserve_stable);
}

#[test]
fn lock_requires_the_authority() {
    let mut m = open_market(0);
    assert_eq!(m.lock(41).unwrap_err(), MarketError::InvalidAuthority);
    assert!(!m.locked);
    m.lock(42).unwrap();
    assert!(m.locked);
    assert_eq!(
        m.add_liquidity(1, 1, 1, 0, FUTURE).unwrap_err(),
        MarketError::PoolLocked
    );
    m.unlock(42).unwrap();
    assert!(!m.locked);
}

#[test]
fn admin_ops_impossible_without_authority() {
    let mut m = Market::initialize(
        9,
        "no-admin",
        0,
        END_TIME,
        None,
        CurveKind::ConstantProduct,
        0,
    )
    .unwrap();
    assert_eq!(m.lock(42).unwrap_err(), MarketError::NoAuthoritySet);
    assert_eq!(m.unlock(42).unwrap_err(), MarketError::NoAuthoritySet);
}
