use pole::address::Address;
use pole::error::PoleError;
use pole::fixed::{Decimal, Rate, WAD};
use pole::helpers::{
    derive_repay_schedule, port_lending_leveraging, port_lending_unroll,
    refresh_port_reserve_and_obligation, unroll_step, valid_pole_pool, violated_invariant,
    LeveragePlan, RefreshPlan, StateCheck, UnrollPlan,
};
use pole::instructions::{CreatePool, InitParams};
use pole::lending::CollateralExchangeRate;
use pole::pool::create_pool;
use pole::states::PolePortPool;

fn key(n: u8) -> Address {
    Address::new([n; 32])
}

fn fresh_pool() -> PolePortPool {
    let accounts = CreatePool {
        lp_mint: key(1),
        liquidity_supply: key(2),
        port_lp_supply: key(3),
        port_supply: key(4),
        fee_receiver: key(5),
        port_open_orders: key(6),
        port_mint: key(7),
        user: key(8),
        token_program: key(9),
        dex_program: key(10),
    };
    let params = InitParams {
        liquidity_cap: 1_000_000,
        withdraw_fee_bips: 30,
        port_iterate: 3,
        port_reserve_percentage: 5,
        port_min_deposit: 51,
        swap_program: key(11),
        reserve: key(12),
    };
    create_pool(&accounts, 254, &params).unwrap()
}

fn one_to_one() -> CollateralExchangeRate {
    CollateralExchangeRate(Rate { w0: WAD, w1: 0 })
}

#[test]
fn a_fresh_pool_is_valid() {
    let pool = fresh_pool();
    assert_eq!(violated_invariant(&pool), None);
    assert_eq!(valid_pole_pool(&pool), Ok(()));
}

#[test]
fn validator_names_the_generic_config() {
    let mut pool = fresh_pool();
    pool.generic_config.bump = 256;
    assert_eq!(violated_invariant(&pool), Some(StateCheck::GenericConfig));
    assert_eq!(valid_pole_pool(&pool), Err(PoleError::InvalidPoolState));
    let mut pool = fresh_pool();
    pool.generic_config.withdraw_fee_bips = 256;
    assert_eq!(violated_invariant(&pool), Some(StateCheck::GenericConfig));
    assert_eq!(StateCheck::GenericConfig.name(), "Generic config");
}

#[test]
fn validator_names_the_port_config() {
    let mut pool = fresh_pool();
    pool.port_config.min_deposit = 10;
    assert_eq!(violated_invariant(&pool), Some(StateCheck::PortConfig));
    let mut pool = fresh_pool();
    pool.port_config.port_iterate = 10;
    assert_eq!(violated_invariant(&pool), Some(StateCheck::PortConfig));
    let mut pool = fresh_pool();
    pool.port_config.port_reserve_percentage = 21;
    assert_eq!(violated_invariant(&pool), Some(StateCheck::PortConfig));
    assert_eq!(valid_pole_pool(&pool), Err(PoleError::InvalidPoolState));
    let mut pool = fresh_pool();
    pool.port_config.port_reserve_percentage = 0;
    assert_eq!(violated_invariant(&pool), Some(StateCheck::PortConfig));
    let mut pool = fresh_pool();
    pool.port_config.port_iterate = 0;
    assert_eq!(violated_invariant(&pool), Some(StateCheck::PortConfig));
    for margin in [1u64, 10, 20] {
        let mut pool = fresh_pool();
        pool.port_config.port_reserve_percentage = margin;
        assert_eq!(violated_invariant(&pool), None);
    }
    let mut pool = fresh_pool();
    pool.port_config.min_deposit = 11;
    pool.port_config.port_iterate = 9;
    assert_eq!(violated_invariant(&pool), None);
    assert_eq!(StateCheck::PortConfig.name(), "Port config");
}

#[test]
fn validator_names_the_leverage() {
    let mut pool = fresh_pool();
    pool.port_state.leverage = 3;
    assert_eq!(violated_invariant(&pool), Some(StateCheck::LeverageSanity));
    assert_eq!(valid_pole_pool(&pool), Err(PoleError::InvalidPoolState));
    assert_eq!(StateCheck::LeverageSanity.name(), "Leverage sanity check");
}

#[test]
fn validator_names_the_flags() {
    let mut pool = fresh_pool();
    pool.port_state.deposit_verified = 2;
    assert_eq!(violated_invariant(&pool), Some(StateCheck::DepositVerifySanity));
    let mut pool = fresh_pool();
    pool.port_state.redeem_verified = 2;
    assert_eq!(violated_invariant(&pool), Some(StateCheck::RedeemVerifySanity));
    let mut pool = fresh_pool();
    pool.port_state.is_redeemed = 2;
    assert_eq!(violated_invariant(&pool), Some(StateCheck::RedeemedSanity));
    assert_eq!(StateCheck::DepositVerifySanity.name(), "Deposit verify sanity check");
    assert_eq!(StateCheck::RedeemVerifySanity.name(), "Redeem verify sanity check");
    assert_eq!(StateCheck::RedeemedSanity.name(), "Redeemed sanity check");
}

#[test]
fn validator_refuses_both_rounds_open() {
    let mut pool = fresh_pool();
    pool.port_state.deposit_verified = 1;
    assert_eq!(violated_invariant(&pool), None);
    pool.port_state.redeem_verified = 1;
    assert_eq!(violated_invariant(&pool), Some(StateCheck::OnlyOneVerified));
    assert_eq!(valid_pole_pool(&pool), Err(PoleError::InvalidPoolState));
    assert_eq!(
        StateCheck::OnlyOneVerified.name(),
        "Only one of deposit and redeem can be enabled"
    );
}

#[test]
fn validator_wants_zeroes_between_rounds() {
    let mut pool = fresh_pool();
    pool.port_state.init_port_liquidity = Decimal::one();
    assert_eq!(violated_invariant(&pool), Some(StateCheck::InitLiquidity));
    let mut pool = fresh_pool();
    pool.port_state.user_liquidity_percentage = Rate { w0: WAD, w1: 0 };
    assert_eq!(violated_invariant(&pool), Some(StateCheck::InitLiquidity));
    let mut pool = fresh_pool();
    pool.port_state.amount_to_unroll = 1;
    assert_eq!(violated_invariant(&pool), Some(StateCheck::InitLiquidity));
    let mut pool = fresh_pool();
    pool.port_state.redeem_amount = 1;
    assert_eq!(violated_invariant(&pool), Some(StateCheck::InitLiquidity));
    assert_eq!(StateCheck::InitLiquidity.name(), "Init liquidity");
}

#[test]
fn validator_wants_a_snapshot_within_a_round() {
    let mut pool = fresh_pool();
    pool.port_state.leverage = 1;
    assert_eq!(violated_invariant(&pool), None);
    pool.basic_state.lp_amount = 10;
    assert_eq!(violated_invariant(&pool), Some(StateCheck::InitLiquidity));
    pool.port_state.init_port_liquidity = Decimal::one();
    assert_eq!(violated_invariant(&pool), None);
}

#[test]
fn validator_reports_the_first_violation() {
    let mut pool = fresh_pool();
    pool.port_state.is_redeemed = 7;
    pool.port_state.leverage = 9;
    pool.generic_config.bump = 1000;
    assert_eq!(violated_invariant(&pool), Some(StateCheck::GenericConfig));
    pool.generic_config.bump = 1;
    assert_eq!(violated_invariant(&pool), Some(StateCheck::LeverageSanity));
    pool.port_state.leverage = 0;
    assert_eq!(violated_invariant(&pool), Some(StateCheck::RedeemedSanity));
}

#[test]
fn leveraging_supplies_all_and_borrows_a_fraction() {
    assert_eq!(
        port_lending_leveraging(1000, 80, 3, 0),
        Ok(LeveragePlan { supply: 1000, borrow: Some(800) })
    );
    assert_eq!(
        port_lending_leveraging(799, 80, 3, 1),
        Ok(LeveragePlan { supply: 799, borrow: Some(639) })
    );
    assert_eq!(
        port_lending_leveraging(0, 80, 3, 1),
        Ok(LeveragePlan { supply: 0, borrow: Some(0) })
    );
}

#[test]
fn leveraging_borrows_nothing_on_the_last_step() {
    assert_eq!(
        port_lending_leveraging(640, 80, 3, 2),
        Ok(LeveragePlan { supply: 640, borrow: None })
    );
    assert_eq!(
        port_lending_leveraging(640, 80, 1, 0),
        Ok(LeveragePlan { supply: 640, borrow: None })
    );
    assert_eq!(
        port_lending_leveraging(u64::MAX, u64::MAX, 3, 5),
        Ok(LeveragePlan { supply: u64::MAX, borrow: None })
    );
}

#[test]
fn leveraging_refuses_no_steps_and_overflow() {
    assert_eq!(port_lending_leveraging(1000, 80, 0, 0), Err(PoleError::MathOverflow));
    assert_eq!(port_lending_leveraging(u64::MAX, 2, 3, 0), Err(PoleError::MathOverflow));
    assert_eq!(
        port_lending_leveraging(u64::MAX / 80, 80, 3, 0),
        Ok(LeveragePlan { supply: u64::MAX / 80, borrow: Some(u64::MAX / 80 * 80 / 100) })
    );
}

#[test]
fn unroll_step_at_one_to_one() {
    let ratio = Decimal::from_percent(80);
    assert_eq!(unroll_step(&one_to_one(), ratio, 1000), Ok((802, 1001)));
    assert_eq!(unroll_step(&one_to_one(), ratio, 802), Ok((644, 803)));
    assert_eq!(unroll_step(&one_to_one(), ratio, 644), Ok((517, 645)));
    assert_eq!(unroll_step(&one_to_one(), ratio, 0), Ok((2, 1)));
}

#[test]
fn unroll_step_at_two_collateral_per_liquidity() {
    let rate = CollateralExchangeRate(Rate { w0: 2 * WAD, w1: 0 });
    let ratio = Decimal::from_percent(50);
    // withdraw 2 * 100 + 1 = 201 collateral, worth 100 liquidity; half of 101 rounds up to 51
    assert_eq!(unroll_step(&rate, ratio, 100), Ok((51, 201)));
}

#[test]
fn unroll_step_refuses_a_zero_rate_and_overflow() {
    let ratio = Decimal::from_percent(80);
    assert_eq!(
        unroll_step(&CollateralExchangeRate(Rate::zero()), ratio, 1000),
        Err(PoleError::MathOverflow)
    );
    assert_eq!(unroll_step(&one_to_one(), ratio, u64::MAX), Err(PoleError::MathOverflow));
    assert_eq!(unroll_step(&one_to_one(), ratio, u64::MAX - 1), Err(PoleError::MathOverflow));
    assert!(unroll_step(&one_to_one(), ratio, u64::MAX - 2).is_ok());
}

#[test]
fn repay_schedule_is_derived_level_by_level() {
    let ratio = Decimal::from_percent(80);
    assert_eq!(derive_repay_schedule(1000, 0, ratio, &one_to_one()), Ok(vec![]));
    assert_eq!(derive_repay_schedule(1000, 1, ratio, &one_to_one()), Ok(vec![(802, 1001)]));
    assert_eq!(
        derive_repay_schedule(1000, 3, ratio, &one_to_one()),
        Ok(vec![(802, 1001), (644, 803), (517, 645)])
    );
}

#[test]
fn repay_schedule_fails_with_its_first_failing_level() {
    let ratio = Decimal::from_percent(255);
    // each level more than doubles the amount, so a long schedule leaves 64 bits
    assert!(derive_repay_schedule(u64::MAX / 8, 1, ratio, &one_to_one()).is_ok());
    assert_eq!(
        derive_repay_schedule(u64::MAX / 8, 3, ratio, &one_to_one()),
        Err(PoleError::MathOverflow)
    );
}

#[test]
fn unroll_withdraws_only_on_the_first_step() {
    let ratio = Decimal::from_percent(80);
    assert_eq!(
        port_lending_unroll(&one_to_one(), ratio, 3, 0, 1000),
        Ok(UnrollPlan { repay: None, withdraw: 645 })
    );
}

#[test]
fn unroll_repays_then_withdraws_on_later_steps() {
    let ratio = Decimal::from_percent(80);
    assert_eq!(
        port_lending_unroll(&one_to_one(), ratio, 3, 1, 1000),
        Ok(UnrollPlan { repay: Some(644), withdraw: 803 })
    );
    assert_eq!(
        port_lending_unroll(&one_to_one(), ratio, 3, 2, 1000),
        Ok(UnrollPlan { repay: Some(802), withdraw: 1001 })
    );
}

#[test]
fn unroll_without_steps_left_moves_nothing() {
    let ratio = Decimal::from_percent(80);
    assert_eq!(
        port_lending_unroll(&one_to_one(), ratio, 3, 3, 1000),
        Ok(UnrollPlan { repay: Some(0), withdraw: 0 })
    );
    assert_eq!(
        port_lending_unroll(&one_to_one(), ratio, 0, 0, 1000),
        Ok(UnrollPlan { repay: None, withdraw: 0 })
    );
}

#[test]
fn unroll_refuses_more_steps_taken_than_there_are() {
    let ratio = Decimal::from_percent(80);
    assert_eq!(port_lending_unroll(&one_to_one(), ratio, 3, 4, 1000), Err(PoleError::MathOverflow));
}

#[test]
fn refresh_names_the_reserve_as_often_as_the_position_needs() {
    assert_eq!(refresh_port_reserve_and_obligation(0, 0), RefreshPlan::ReserveOnly);
    assert_eq!(refresh_port_reserve_and_obligation(1, 0), RefreshPlan::PositionWithDeposit);
    assert_eq!(refresh_port_reserve_and_obligation(1, 1), RefreshPlan::PositionWithDepositAndBorrow);
    assert_eq!(refresh_port_reserve_and_obligation(0, 1), RefreshPlan::PositionWithDepositAndBorrow);
    assert_eq!(refresh_port_reserve_and_obligation(2, 0), RefreshPlan::PositionWithDepositAndBorrow);
}

#[test]
fn a_level_withdraws_collateral_worth_what_it_frees() {
    let ratio = Decimal::from_percent(80);
    for scaled in [WAD / 3, WAD - 1, WAD, WAD + 1, 2 * WAD + 7, 12 * WAD] {
        let rate = CollateralExchangeRate(Rate { w0: scaled, w1: 0 });
        for amount in [0u64, 1, 2, 999, 1000, 123_456_789] {
            let (repay, withdraw) = unroll_step(&rate, ratio, amount).unwrap();
            let freed = rate.collateral_to_liquidity(withdraw).unwrap();
            assert!(freed >= amount);
            assert!(repay as u128 * 100 >= (freed as u128 + 1) * 80);
            assert!((repay as u128 - 1) * 100 < (freed as u128 + 1) * 80);
        }
    }
}
