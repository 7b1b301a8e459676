use pole::error::PoleError;
use pole::fixed::{Decimal, Rate, BIPS_SCALER, PERCENT_SCALER, WAD};

fn dec(value: u128) -> Decimal {
    Decimal { w0: value as u64, w1: (value >> 64) as u64, w2: 0 }
}

fn value(d: Decimal) -> u128 {
    assert_eq!(d.w2, 0);
    (d.w0 as u128) | ((d.w1 as u128) << 64)
}

#[test]
fn constants_are_powers_of_ten() {
    assert_eq!(WAD, 10u64.pow(18));
    assert_eq!(PERCENT_SCALER, 10u64.pow(16));
    assert_eq!(BIPS_SCALER, 10u64.pow(14));
}

#[test]
fn zero_and_one() {
    assert_eq!(Decimal::zero(), Decimal { w0: 0, w1: 0, w2: 0 });
    assert_eq!(Decimal::one(), Decimal { w0: WAD, w1: 0, w2: 0 });
    assert!(Decimal::zero().is_zero());
    assert!(!Decimal::one().is_zero());
    assert!(!Decimal { w0: 0, w1: 0, w2: 1 }.is_zero());
    assert_eq!(Rate::zero(), Rate { w0: 0, w1: 0 });
    assert!(Rate::zero().is_zero());
    assert!(!Rate { w0: 0, w1: 1 }.is_zero());
}

#[test]
fn from_u64_scales_by_wad() {
    assert_eq!(value(Decimal::from_u64(0)), 0);
    assert_eq!(value(Decimal::from_u64(7)), 7 * WAD as u128);
    assert_eq!(value(Decimal::from_u64(u64::MAX)), u64::MAX as u128 * WAD as u128);
}

#[test]
fn from_percent_scales_by_percent() {
    assert_eq!(value(Decimal::from_percent(0)), 0);
    assert_eq!(value(Decimal::from_percent(85)), 850_000_000_000_000_000);
    assert_eq!(value(Decimal::from_percent(255)), 2_550_000_000_000_000_000);
}

#[test]
fn from_bips_scales_by_bips() {
    assert_eq!(Decimal::from_bips(30), Ok(dec(3_000_000_000_000_000)));
    assert_eq!(Decimal::from_bips(0), Ok(Decimal::zero()));
    assert_eq!(Decimal::from_bips(184_467), Ok(dec(18_446_700_000_000_000_000)));
}

#[test]
fn from_bips_refuses_what_leaves_64_bits() {
    assert_eq!(Decimal::from_bips(184_468), Err(PoleError::MathOverflow));
    assert_eq!(Decimal::from_bips(u64::MAX), Err(PoleError::MathOverflow));
}

#[test]
fn ge_orders_by_value() {
    let small = Decimal { w0: u64::MAX, w1: u64::MAX, w2: 0 };
    let large = Decimal { w0: 0, w1: 0, w2: 1 };
    assert!(large.ge(&small));
    assert!(!small.ge(&large));
    assert!(small.ge(&small));
    assert!(Decimal { w0: 1, w1: 5, w2: 2 }.ge(&Decimal { w0: 9, w1: 4, w2: 2 }));
    assert!(!Decimal { w0: 9, w1: 4, w2: 2 }.ge(&Decimal { w0: 1, w1: 5, w2: 2 }));
    assert!(Decimal { w0: 9, w1: 4, w2: 2 }.ge(&Decimal { w0: 8, w1: 4, w2: 2 }));
    assert!(!Decimal { w0: 7, w1: 4, w2: 2 }.ge(&Decimal { w0: 8, w1: 4, w2: 2 }));
}

#[test]
fn try_add_sums() {
    assert_eq!(dec(5).try_add(dec(7)), Ok(dec(12)));
    assert_eq!(
        Decimal { w0: u64::MAX, w1: 0, w2: 0 }.try_add(dec(1)),
        Ok(Decimal { w0: 0, w1: 1, w2: 0 })
    );
    assert_eq!(
        Decimal { w0: u64::MAX, w1: u64::MAX, w2: 0 }.try_add(dec(1)),
        Ok(Decimal { w0: 0, w1: 0, w2: 1 })
    );
}

#[test]
fn try_add_refuses_overflow() {
    let max = Decimal { w0: u64::MAX, w1: u64::MAX, w2: u64::MAX };
    assert_eq!(max.try_add(dec(1)), Err(PoleError::MathOverflow));
    assert_eq!(max.try_add(dec(0)), Ok(max));
}

#[test]
fn try_sub_subtracts() {
    assert_eq!(dec(12).try_sub(dec(7)), Ok(dec(5)));
    assert_eq!(dec(7).try_sub(dec(7)), Ok(dec(0)));
    assert_eq!(
        Decimal { w0: 0, w1: 0, w2: 1 }.try_sub(dec(1)),
        Ok(Decimal { w0: u64::MAX, w1: u64::MAX, w2: 0 })
    );
}

#[test]
fn try_sub_refuses_underflow() {
    assert_eq!(dec(7).try_sub(dec(8)), Err(PoleError::MathOverflow));
}

#[test]
fn try_mul_multiplies_by_an_integer() {
    assert_eq!(dec(3 * WAD as u128).try_mul(4), Ok(dec(12 * WAD as u128)));
    assert_eq!(dec(5).try_mul(0), Ok(dec(0)));
    assert_eq!(
        Decimal { w0: 0, w1: 1, w2: 0 }.try_mul(u64::MAX),
        Ok(Decimal { w0: 0, w1: u64::MAX, w2: 0 })
    );
}

#[test]
fn try_mul_refuses_overflow() {
    assert_eq!(Decimal { w0: 0, w1: 0, w2: 1 << 63 }.try_mul(2), Err(PoleError::MathOverflow));
    assert_eq!(
        Decimal { w0: 0, w1: 0, w2: 1 << 62 }.try_mul(2),
        Ok(Decimal { w0: 0, w1: 0, w2: 1 << 63 })
    );
}

#[test]
fn try_mul_rate_divides_by_wad() {
    let half = Rate { w0: WAD / 2, w1: 0 };
    assert_eq!(dec(10 * WAD as u128).try_mul_rate(half), Ok(dec(5 * WAD as u128)));
    assert_eq!(dec(3).try_mul_rate(half), Ok(dec(1)));
    assert_eq!(dec(3).try_mul_rate(Rate::zero()), Ok(dec(0)));
}

#[test]
fn try_mul_rate_refuses_overflow() {
    let rate = Rate { w0: 0, w1: 1 };
    assert_eq!(Decimal { w0: 0, w1: 0, w2: 1 }.try_mul_rate(rate), Err(PoleError::MathOverflow));
    assert!(Decimal { w0: 0, w1: 1, w2: 0 }.try_mul_rate(rate).is_ok());
}

#[test]
fn try_div_u64_divides() {
    assert_eq!(dec(10 * WAD as u128).try_div_u64(4), Ok(dec(2_500_000_000_000_000_000)));
    assert_eq!(dec(10).try_div_u64(3), Ok(dec(3)));
}

#[test]
fn try_div_u64_refuses_zero() {
    assert_eq!(dec(10).try_div_u64(0), Err(PoleError::MathOverflow));
}

#[test]
fn try_div_scales_the_quotient() {
    let ten = Decimal::from_u64(10);
    let four = Decimal::from_u64(4);
    assert_eq!(ten.try_div(four), Ok(dec(2_500_000_000_000_000_000)));
    assert_eq!(Decimal::from_u64(1).try_div(Decimal::from_u64(3)), Ok(dec(333_333_333_333_333_333)));
}

#[test]
fn try_div_refuses_zero_and_overflow() {
    assert_eq!(Decimal::from_u64(1).try_div(Decimal::zero()), Err(PoleError::MathOverflow));
    assert_eq!(
        Decimal { w0: 0, w1: 0, w2: 1 << 40 }.try_div(Decimal::one()),
        Err(PoleError::MathOverflow)
    );
}

#[test]
fn try_floor_rounds_down() {
    assert_eq!(dec(2_999_999_999_999_999_999).try_floor_u64(), Ok(2));
    assert_eq!(dec(3_000_000_000_000_000_000).try_floor_u64(), Ok(3));
    assert_eq!(dec(0).try_floor_u64(), Ok(0));
    assert_eq!(Decimal::from_u64(u64::MAX).try_floor_u64(), Ok(u64::MAX));
}

#[test]
fn try_floor_refuses_what_leaves_64_bits() {
    let over = Decimal::from_u64(u64::MAX).try_add(Decimal::one()).unwrap();
    assert_eq!(over.try_floor_u64(), Err(PoleError::MathOverflow));
}

#[test]
fn try_ceil_rounds_up() {
    assert_eq!(dec(2_000_000_000_000_000_001).try_ceil_u64(), Ok(3));
    assert_eq!(dec(3_000_000_000_000_000_000).try_ceil_u64(), Ok(3));
    assert_eq!(dec(1).try_ceil_u64(), Ok(1));
    assert_eq!(dec(0).try_ceil_u64(), Ok(0));
}

#[test]
fn try_ceil_refuses_what_leaves_64_bits() {
    let over = Decimal::from_u64(u64::MAX).try_add(dec(1)).unwrap();
    assert_eq!(over.try_ceil_u64(), Err(PoleError::MathOverflow));
    let top = Decimal { w0: u64::MAX, w1: u64::MAX, w2: u64::MAX };
    assert_eq!(top.try_ceil_u64(), Err(PoleError::MathOverflow));
}

#[test]
fn rate_from_decimal_keeps_the_value() {
    assert_eq!(
        Rate::try_from_decimal(Decimal { w0: 5, w1: 9, w2: 0 }),
        Ok(Rate { w0: 5, w1: 9 })
    );
}

#[test]
fn rate_from_decimal_refuses_what_leaves_128_bits() {
    assert_eq!(
        Rate::try_from_decimal(Decimal { w0: 0, w1: 0, w2: 1 }),
        Err(PoleError::MathOverflow)
    );
}
