use pole::error::PoleError;
use pole::fixed::{Decimal, Rate, WAD};
use pole::lending::CollateralExchangeRate;
use pole::states::{BasicState, ExchangeRate};

fn dec(value: u128) -> Decimal {
    Decimal { w0: value as u64, w1: (value >> 64) as u64, w2: 0 }
}

fn rate(value: u128) -> Rate {
    Rate { w0: value as u64, w1: (value >> 64) as u64 }
}

const W: u128 = WAD as u128;

#[test]
fn exchange_rate_is_one_without_shares() {
    let state = BasicState { lp_amount: 0 };
    assert_eq!(state.exchange_rate(Decimal::from_u64(500)), Ok(ExchangeRate(Decimal::one())));
}

#[test]
fn exchange_rate_is_one_without_liquidity() {
    let state = BasicState { lp_amount: 500 };
    assert_eq!(state.exchange_rate(Decimal::zero()), Ok(ExchangeRate(Decimal::one())));
}

#[test]
fn exchange_rate_is_shares_per_liquidity() {
    let state = BasicState { lp_amount: 1000 };
    assert_eq!(state.exchange_rate(Decimal::from_u64(2000)), Ok(ExchangeRate(dec(W / 2))));
    assert_eq!(state.exchange_rate(Decimal::from_u64(500)), Ok(ExchangeRate(dec(2 * W))));
    assert_eq!(
        state.exchange_rate(Decimal::from_u64(3000)),
        Ok(ExchangeRate(dec(333_333_333_333_333_333)))
    );
}

#[test]
fn exchange_rate_never_fails_at_the_ends_of_the_range() {
    let state = BasicState { lp_amount: u64::MAX };
    assert!(state.exchange_rate(dec(1)).is_ok());
    assert!(state.exchange_rate(Decimal { w0: u64::MAX, w1: u64::MAX, w2: u64::MAX }).is_ok());
}

#[test]
fn liquidity_to_lp_rounds_down() {
    let third = ExchangeRate(dec(333_333_333_333_333_333));
    assert_eq!(third.liquidity_to_lp(3000), Ok(999));
    assert_eq!(third.liquidity_to_lp(3), Ok(0));
    let double = ExchangeRate(dec(2 * W));
    assert_eq!(double.liquidity_to_lp(21), Ok(42));
    assert_eq!(ExchangeRate(Decimal::zero()).liquidity_to_lp(21), Ok(0));
}

#[test]
fn liquidity_to_lp_refuses_what_leaves_64_bits() {
    let double = ExchangeRate(dec(2 * W));
    assert_eq!(double.liquidity_to_lp(u64::MAX), Err(PoleError::MathOverflow));
    let huge = ExchangeRate(Decimal { w0: 0, w1: 0, w2: 1 << 63 });
    assert_eq!(huge.liquidity_to_lp(2), Err(PoleError::MathOverflow));
}

#[test]
fn lp_to_liquidity_rounds_down() {
    let third = ExchangeRate(dec(333_333_333_333_333_333));
    assert_eq!(third.lp_to_liquidity(999), Ok(2997));
    assert_eq!(third.lp_to_liquidity(1), Ok(3));
    let double = ExchangeRate(dec(2 * W));
    assert_eq!(double.lp_to_liquidity(43), Ok(21));
    assert_eq!(ExchangeRate(Decimal::one()).lp_to_liquidity(u64::MAX), Ok(u64::MAX));
}

#[test]
fn lp_to_liquidity_refuses_a_zero_rate() {
    assert_eq!(ExchangeRate(Decimal::zero()).lp_to_liquidity(1), Err(PoleError::MathOverflow));
    assert_eq!(ExchangeRate(Decimal::zero()).lp_to_liquidity(0), Err(PoleError::MathOverflow));
}

#[test]
fn lp_to_liquidity_refuses_what_leaves_64_bits() {
    let half = ExchangeRate(dec(W / 2));
    assert_eq!(half.lp_to_liquidity(u64::MAX), Err(PoleError::MathOverflow));
}

#[test]
fn round_trip_from_shares_never_gains() {
    let rates = [1u128, 7, W / 3, W / 2, W - 1, W, W + 1, 2 * W, 1_234_567 * W + 89];
    let amounts = [0u64, 1, 2, 3, 999, 1000, 123_456_789, u64::MAX / 3, u64::MAX];
    for r in rates {
        for s in amounts {
            let rate = ExchangeRate(dec(r));
            if let Ok(liquidity) = rate.lp_to_liquidity(s) {
                let back = rate.liquidity_to_lp(liquidity);
                assert!(matches!(back, Ok(b) if b <= s));
            }
        }
    }
}

#[test]
fn round_trip_from_liquidity_never_gains() {
    let rates = [1u128, 7, W / 3, W / 2, W - 1, W, W + 1, 2 * W, 1_234_567 * W + 89];
    let amounts = [0u64, 1, 2, 3, 999, 1000, 123_456_789, u64::MAX / 3, u64::MAX];
    for r in rates {
        for l in amounts {
            let rate = ExchangeRate(dec(r));
            if let Ok(shares) = rate.liquidity_to_lp(l) {
                let back = rate.lp_to_liquidity(shares);
                assert!(matches!(back, Ok(b) if b <= l));
            }
        }
    }
}

#[test]
fn round_trip_loses_at_most_the_rounding() {
    let third = ExchangeRate(dec(333_333_333_333_333_333));
    assert_eq!(third.lp_to_liquidity(1000), Ok(3000));
    assert_eq!(third.liquidity_to_lp(3000), Ok(999));
}

#[test]
fn collateral_to_liquidity_divides_by_the_rate() {
    assert_eq!(CollateralExchangeRate(rate(W)).collateral_to_liquidity(1001), Ok(1001));
    assert_eq!(CollateralExchangeRate(rate(2 * W)).collateral_to_liquidity(1001), Ok(500));
    assert_eq!(CollateralExchangeRate(rate(W / 4)).collateral_to_liquidity(10), Ok(40));
    assert_eq!(CollateralExchangeRate(rate(3 * W)).collateral_to_liquidity(10), Ok(3));
}

#[test]
fn collateral_to_liquidity_refuses_a_zero_rate_and_overflow() {
    assert_eq!(
        CollateralExchangeRate(Rate::zero()).collateral_to_liquidity(1),
        Err(PoleError::MathOverflow)
    );
    assert_eq!(
        CollateralExchangeRate(rate(W / 2)).collateral_to_liquidity(u64::MAX),
        Err(PoleError::MathOverflow)
    );
}

#[test]
fn liquidity_to_collateral_multiplies_by_the_rate() {
    assert_eq!(CollateralExchangeRate(rate(W)).liquidity_to_collateral(1000), Ok(1000));
    assert_eq!(CollateralExchangeRate(rate(2 * W)).liquidity_to_collateral(1000), Ok(2000));
    assert_eq!(CollateralExchangeRate(rate(W / 3)).liquidity_to_collateral(10), Ok(3));
    assert_eq!(CollateralExchangeRate(Rate::zero()).liquidity_to_collateral(10), Ok(0));
}

#[test]
fn liquidity_to_collateral_refuses_overflow() {
    assert_eq!(
        CollateralExchangeRate(rate(2 * W)).liquidity_to_collateral(u64::MAX),
        Err(PoleError::MathOverflow)
    );
    assert_eq!(
        CollateralExchangeRate(Rate { w0: 0, w1: u64::MAX }).liquidity_to_collateral(u64::MAX),
        Err(PoleError::MathOverflow)
    );
}
