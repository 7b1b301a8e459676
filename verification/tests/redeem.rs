use pole::address::Address;
use pole::batch::{id, BatchKind, BatchOperation};
use pole::error::PoleError;
use pole::event::DidRedeem;
use pole::fixed::{Decimal, Rate, WAD};
use pole::helpers::UnrollPlan;
use pole::instructions::{
    CreatePool, InitParams, InitPortAccounts, PoleLPAccounts, PoleLiquidityAccounts,
    PortLendingAccounts, PortPosition, RedeemLiquidity, VerifyRedeem,
};
use pole::lending::CollateralExchangeRate;
use pole::pool::{create_pool, init_port_accounts, verify_redeem};
use pole::redeem::{payout_of, redeem_liquidity, Payout, RedeemStep};
use pole::states::PolePortPool;

fn key(n: u8) -> Address {
    Address::new([n; 32])
}

const USER_LP_WALLET: u8 = 43;

/// The lending protocol and the wallets, at one collateral per liquidity.
struct World {
    wallet: u64,
    collateral: u64,
    debt: u64,
    lp_supply: u64,
    slot: u64,
    paid_fee: u64,
    paid_user: u64,
}

impl World {
    fn accounts(&self) -> RedeemLiquidity {
        RedeemLiquidity {
            pole_fee_account: key(5),
            pole_liquidity_accounts: PoleLiquidityAccounts {
                user_liquidity_wallet: key(42),
                pole_liquidity_wallet: key(2),
                pole_liquidity: self.wallet,
            },
            pole_lp_accounts: PoleLPAccounts {
                lp_mint: key(1),
                user_lp_wallet: key(USER_LP_WALLET),
                lp_supply: self.lp_supply,
            },
            port_accounts: PortLendingAccounts {
                user_lp_wallet: key(50),
                lp_mint: key(51),
                reserve_lp_wallet: key(52),
                liquidity_mint: key(53),
                reserve_liquidity_wallet: key(54),
                obligation: key(20),
                reserve: key(12),
                reserve_fee: key(55),
                stake_account: key(21),
                staking_pool: key(56),
                lending_market: key(57),
                lending_market_authority: key(58),
                port_lending_program: key(22),
                port_staking_program: key(23),
                position: PortPosition {
                    deposits_count: (self.collateral > 0) as u8,
                    borrows_count: (self.debt > 0) as u8,
                    obligation_stale: false,
                    reserve_stale: false,
                    loan_to_value: 85,
                    exchange_rate: CollateralExchangeRate(Rate { w0: WAD, w1: 0 }),
                    liquidity: Decimal::from_u64(self.collateral - self.debt),
                },
            },
            token_program: key(9),
            clock_slot: self.slot,
        }
    }

    /// Carries a step out as a forgiving protocol would: it repays no more
    /// than is owed and withdraws no more than there is.
    fn carry_out(&mut self, step: &RedeemStep) {
        if let Some(shares) = step.burn {
            self.lp_supply -= shares;
        }
        if let Some(unroll) = step.unroll {
            if let Some(repay) = unroll.repay {
                let repaid = repay.min(self.debt).min(self.wallet);
                self.debt -= repaid;
                self.wallet -= repaid;
            }
            let withdrawn = unroll.withdraw.min(self.collateral);
            self.collateral -= withdrawn;
            self.wallet += withdrawn;
        }
        if let Some(payout) = step.payout {
            self.wallet -= payout.fee + payout.to_user;
            self.paid_fee += payout.fee;
            self.paid_user += payout.to_user;
        }
    }
}

fn pool_with_shares(steps: u8, shares: u64) -> PolePortPool {
    let accounts = CreatePool {
        lp_mint: key(1),
        liquidity_supply: key(2),
        port_lp_supply: key(3),
        port_supply: key(4),
        fee_receiver: key(5),
        port_open_orders: key(6),
        port_mint: key(7),
        user: key(8),
        token_program: key(9),
        dex_program: key(10),
    };
    let params = InitParams {
        liquidity_cap: 1_000_000,
        withdraw_fee_bips: 30,
        port_iterate: steps,
        port_reserve_percentage: 5,
        port_min_deposit: 51,
        swap_program: key(11),
        reserve: key(12),
    };
    let mut pool = create_pool(&accounts, 254, &params).unwrap();
    let bind = InitPortAccounts {
        obligation: key(20),
        stake_account: key(21),
        user: key(8),
        port_lending_program: key(22),
        port_staking_program: key(23),
    };
    init_port_accounts(&mut pool, &bind).unwrap();
    pool.basic_state.lp_amount = shares;
    pool.port_state.last_sold_slot = 100;
    pool
}

fn open_round(pool: &mut PolePortPool, amount: u64) {
    let mut ops = Vec::new();
    for step in 0..pool.port_config.port_iterate {
        let mut data = BatchKind::Redeem.sighash().to_vec();
        data.extend_from_slice(&(if step == 0 { amount } else { 0 }).to_le_bytes());
        let mut accounts = vec![key(90); 6];
        accounts.push(key(USER_LP_WALLET));
        ops.push(BatchOperation { program_id: id(), accounts, data });
    }
    verify_redeem(pool, &VerifyRedeem { transaction_info: ops }).unwrap();
}

fn step(pool: &mut PolePortPool, world: &mut World, amount: u64) -> RedeemStep {
    let step = redeem_liquidity(pool, &world.accounts(), amount).unwrap();
    world.carry_out(&step);
    step
}

fn leveraged_world() -> World {
    World {
        wallet: 0,
        collateral: 2440,
        debt: 1440,
        lp_supply: 1000,
        slot: 120,
        paid_fee: 0,
        paid_user: 0,
    }
}

#[test]
fn redeeming_all_shares_over_three_verified_steps() {
    let mut pool = pool_with_shares(3, 1000);
    let mut world = leveraged_world();
    open_round(&mut pool, 1000);

    let first = step(&mut pool, &mut world, 1000);
    assert_eq!(
        first,
        RedeemStep {
            burn: Some(1000),
            unroll: Some(UnrollPlan { repay: None, withdraw: 645 }),
            payout: None,
            event: None,
        }
    );
    assert_eq!(pool.port_state.leverage, 1);
    assert_eq!(pool.port_state.redeem_amount, 1000);
    assert_eq!(pool.port_state.amount_to_unroll, 1000);
    assert_eq!(pool.port_state.is_redeemed, 0);
    assert_eq!(pool.port_state.init_port_liquidity, Decimal::from_u64(1000));
    assert_eq!(pool.basic_state.lp_amount, 0);

    let second = step(&mut pool, &mut world, 0);
    assert_eq!(
        second,
        RedeemStep {
            burn: None,
            unroll: Some(UnrollPlan { repay: Some(644), withdraw: 803 }),
            payout: None,
            event: None,
        }
    );
    assert_eq!(pool.port_state.leverage, 2);

    let last = step(&mut pool, &mut world, 0);
    assert_eq!(last.burn, None);
    assert_eq!(last.unroll, Some(UnrollPlan { repay: Some(802), withdraw: 1001 }));
    assert_eq!(last.payout, Some(Payout { fee: 3, to_user: 997 }));
    assert_eq!(
        last.event,
        Some(DidRedeem { liquidity_amount_redeemed: 1000, lp_amount_burned: 0 })
    );

    assert_eq!(pool.port_state.amount_to_unroll, 0);
    assert_eq!(pool.port_state.leverage, 0);
    assert_eq!(pool.port_state.redeem_verified, 0);
    assert_eq!(pool.port_state.redeem_amount, 0);
    assert_eq!(pool.port_state.last_sold_slot, 100);
    assert_eq!(pool.basic_state.lp_amount, 0);
    assert_eq!(world.lp_supply, 0);
    assert_eq!(world.paid_fee + world.paid_user, 1000);
    let fee = last.payout.unwrap().fee;
    assert!(fee * 10_000 >= 30 * 1000);
    assert!(fee * 10_000 < 30 * 1000 + 10_000);
}

#[test]
fn a_redemption_that_the_wallet_covers_is_paid_at_once() {
    let mut pool = pool_with_shares(3, 1000);
    let mut world = World {
        wallet: 1000,
        collateral: 500,
        debt: 0,
        lp_supply: 1000,
        slot: 120,
        paid_fee: 0,
        paid_user: 0,
    };
    open_round(&mut pool, 300);

    let first = step(&mut pool, &mut world, 300);
    assert_eq!(
        first,
        RedeemStep {
            burn: Some(300),
            unroll: None,
            payout: Some(Payout { fee: 2, to_user: 448 }),
            event: Some(DidRedeem { liquidity_amount_redeemed: 450, lp_amount_burned: 300 }),
        }
    );
    assert_eq!(pool.port_state.is_redeemed, 1);
    assert_eq!(pool.port_state.leverage, 1);
    assert_eq!(pool.port_state.amount_to_unroll, 0);
    assert_eq!(pool.port_state.redeem_amount, 450);
    assert_eq!(pool.basic_state.lp_amount, 700);

    let idle = RedeemStep { burn: None, unroll: None, payout: None, event: None };
    assert_eq!(step(&mut pool, &mut world, 0), idle);
    assert_eq!(pool.port_state.is_redeemed, 1);
    assert_eq!(pool.port_state.leverage, 2);
    assert_eq!(step(&mut pool, &mut world, 0), idle);
    assert_eq!(pool.port_state.is_redeemed, 0);
    assert_eq!(pool.port_state.leverage, 0);
    assert_eq!(pool.port_state.redeem_verified, 0);
    assert_eq!(world.wallet, 550);
    assert_eq!((world.paid_fee, world.paid_user), (2, 448));
}

#[test]
fn a_pool_of_one_step_unwinds_and_pays_in_one() {
    let mut pool = pool_with_shares(1, 100);
    let mut world = World {
        wallet: 10,
        collateral: 100,
        debt: 0,
        lp_supply: 100,
        slot: 120,
        paid_fee: 0,
        paid_user: 0,
    };
    open_round(&mut pool, 100);
    let only = step(&mut pool, &mut world, 100);
    // 100 of 100 shares over 110 of liquidity are worth 110; 100 of them have to be freed
    assert_eq!(only.burn, Some(100));
    assert_eq!(only.unroll, Some(UnrollPlan { repay: None, withdraw: 101 }));
    assert_eq!(only.payout, Some(Payout { fee: 1, to_user: 109 }));
    assert_eq!(pool.port_state.leverage, 0);
    assert_eq!(pool.port_state.is_redeemed, 0);
}

#[test]
fn the_fee_is_the_fraction_rounded_up() {
    assert_eq!(payout_of(30, 1000), Ok(Payout { fee: 3, to_user: 997 }));
    assert_eq!(payout_of(30, 1001), Ok(Payout { fee: 4, to_user: 997 }));
    assert_eq!(payout_of(30, 1), Ok(Payout { fee: 1, to_user: 0 }));
    assert_eq!(payout_of(30, 0), Ok(Payout { fee: 0, to_user: 0 }));
    assert_eq!(payout_of(0, 1234), Ok(Payout { fee: 0, to_user: 1234 }));
    assert_eq!(payout_of(255, 10_000), Ok(Payout { fee: 255, to_user: 9745 }));
    assert_eq!(payout_of(10_000, 77), Ok(Payout { fee: 77, to_user: 0 }));
    assert_eq!(
        payout_of(255, u64::MAX),
        Ok(Payout { fee: 470_391_973_879_593_567, to_user: 17_976_352_099_829_958_048 })
    );
}

#[test]
fn a_fee_above_the_amount_or_out_of_range_is_refused() {
    assert_eq!(payout_of(10_001, 10_000), Err(PoleError::MathOverflow));
    assert_eq!(payout_of(184_468, 1), Err(PoleError::MathOverflow));
    assert_eq!(payout_of(184_467, 1), Err(PoleError::MathOverflow));
    assert_eq!(payout_of(184_467, 0), Ok(Payout { fee: 0, to_user: 0 }));
}

fn ready() -> (PolePortPool, World) {
    let mut pool = pool_with_shares(3, 1000);
    open_round(&mut pool, 1000);
    (pool, leveraged_world())
}

fn refused(pool: &PolePortPool, accounts: &RedeemLiquidity, amount: u64, error: PoleError) {
    let mut after = *pool;
    assert_eq!(redeem_liquidity(&mut after, accounts, amount), Err(error));
    assert_eq!(after, *pool);
}

#[test]
fn a_redemption_needs_a_verified_round() {
    let pool = pool_with_shares(3, 1000);
    refused(&pool, &leveraged_world().accounts(), 1000, PoleError::RedeemNotVerified);
}

#[test]
fn a_redemption_needs_the_pools_accounts() {
    let (pool, world) = ready();
    let good = world.accounts();

    let mut a = good;
    a.pole_liquidity_accounts.pole_liquidity_wallet = key(99);
    refused(&pool, &a, 1000, PoleError::InvalidLiquidityWallet);
    let mut a = good;
    a.port_accounts.obligation = key(99);
    refused(&pool, &a, 1000, PoleError::InvalidObligation);
    let mut a = good;
    a.port_accounts.stake_account = key(99);
    refused(&pool, &a, 1000, PoleError::InvalidStakeAccount);
    let mut a = good;
    a.port_accounts.port_lending_program = key(99);
    refused(&pool, &a, 1000, PoleError::InvalidPortLendingProgram);
    let mut a = good;
    a.token_program = key(99);
    refused(&pool, &a, 1000, PoleError::InvalidTokenProgram);
    let mut a = good;
    a.pole_fee_account = key(99);
    refused(&pool, &a, 1000, PoleError::InvalidFeeAccount);
    let mut a = good;
    a.port_accounts.reserve = key(99);
    refused(&pool, &a, 1000, PoleError::ConstraintRaw);
    let mut a = good;
    a.port_accounts.position.borrows_count = 2;
    refused(&pool, &a, 1000, PoleError::ConstraintRaw);
}

#[test]
fn a_redemption_needs_the_approved_wallet() {
    let (pool, world) = ready();
    let mut a = world.accounts();
    a.pole_lp_accounts.user_lp_wallet = key(99);
    refused(&pool, &a, 1000, PoleError::WrongWallet);
}

#[test]
fn a_redemption_carries_its_amount_on_the_first_step_only() {
    let (mut pool, mut world) = ready();
    refused(&pool, &world.accounts(), 0, PoleError::RedeemAmountInvalid);
    step(&mut pool, &mut world, 1000);
    refused(&pool, &world.accounts(), 1, PoleError::RedeemAmountInvalid);
}

#[test]
fn a_redemption_needs_the_share_supply_on_record() {
    let (pool, mut world) = ready();
    world.lp_supply = 999;
    refused(&pool, &world.accounts(), 1000, PoleError::LPMintAmountNotMatch);
}

#[test]
fn a_redemption_needs_a_recent_harvest() {
    let (pool, mut world) = ready();
    world.slot = 151;
    refused(&pool, &world.accounts(), 1000, PoleError::PortNotSell);
    world.slot = 99;
    refused(&pool, &world.accounts(), 1000, PoleError::MathOverflow);
    let mut never = pool;
    never.port_state.last_sold_slot = 0;
    world.slot = 51;
    refused(&never, &world.accounts(), 1000, PoleError::PortNotSell);
}

#[test]
fn a_redemption_needs_a_valid_pool() {
    let (mut pool, world) = ready();
    pool.port_state.amount_to_unroll = 1;
    refused(&pool, &world.accounts(), 1000, PoleError::InvalidPoolState);
    let mut a = world.accounts();
    a.pole_fee_account = key(99);
    refused(&pool, &a, 0, PoleError::InvalidPoolState);
}

#[test]
fn more_shares_than_there_are_cannot_be_redeemed() {
    let (pool, world) = ready();
    refused(&pool, &world.accounts(), 1001, PoleError::MathOverflow);
}

#[test]
fn a_redemption_needs_a_loan_to_value_above_the_margin() {
    let (pool, world) = ready();
    let mut a = world.accounts();
    a.port_accounts.position.loan_to_value = 4;
    refused(&pool, &a, 1000, PoleError::MathOverflow);
}

#[test]
fn a_redemption_that_cannot_be_unwound_is_refused() {
    let (pool, world) = ready();
    let mut a = world.accounts();
    a.port_accounts.position.exchange_rate = CollateralExchangeRate(Rate::zero());
    refused(&pool, &a, 1000, PoleError::MathOverflow);
}
