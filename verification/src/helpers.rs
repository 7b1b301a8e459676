//! The invariant validator and the plans of the leverage and unleverage
//! steps: what to supply, borrow, repay and withdraw.

use vstd::prelude::*;
use crate::error::PoleError;
use crate::fixed::{pow192, Decimal, WAD};
use crate::lending::CollateralExchangeRate;
use crate::states::PolePortPool;

verus! {

/// The checks of the validator, in the order in which it makes them.
#[derive(Clone, Copy, Debug, PartialEq, Eq, Structural)]
pub enum StateCheck {
    GenericConfig,
    PortConfig,
    LeverageSanity,
    DepositVerifySanity,
    RedeemVerifySanity,
    OnlyOneVerified,
    RedeemedSanity,
    InitLiquidity,
}

impl StateCheck {
    /// Whether `pool` passes this check.
    pub open spec fn holds(self, pool: &PolePortPool) -> bool {
        let state = pool.port_state;
        match self {
            StateCheck::GenericConfig => pool.generic_config.validate(),
            StateCheck::PortConfig => pool.port_config.validate(),
            StateCheck::LeverageSanity => pool.port_config.port_iterate > state.leverage,
            StateCheck::DepositVerifySanity => state.deposit_verified == 0 || state.deposit_verified
                == 1,
            StateCheck::RedeemVerifySanity => state.redeem_verified == 0 || state.redeem_verified
                == 1,
            StateCheck::OnlyOneVerified => !(state.redeem_verified == 1 && state.deposit_verified
                == 1),
            StateCheck::RedeemedSanity => state.is_redeemed == 0 || state.is_redeemed == 1,
            StateCheck::InitLiquidity => if state.leverage == 0 {
                state.init_port_liquidity@ == 0 && state.user_liquidity_percentage@ == 0
                    && state.amount_to_unroll == 0 && state.redeem_amount == 0
            } else if pool.basic_state.lp_amount != 0 {
                state.init_port_liquidity@ != 0
            } else {
                true
            },
        }
    }

    /// The name under which a failure of this check is reported.
    pub fn name(&self) -> (r: &'static str)
        ensures
            r@ == match self {
                StateCheck::GenericConfig => "Generic config"@,
                StateCheck::PortConfig => "Port config"@,
                StateCheck::LeverageSanity => "Leverage sanity check"@,
                StateCheck::DepositVerifySanity => "Deposit verify sanity check"@,
                StateCheck::RedeemVerifySanity => "Redeem verify sanity check"@,
                StateCheck::OnlyOneVerified => "Only one of deposit and redeem can be enabled"@,
                StateCheck::RedeemedSanity => "Redeemed sanity check"@,
                StateCheck::InitLiquidity => "Init liquidity"@,
            },
    {
        match self {
            StateCheck::GenericConfig => "Generic config",
            StateCheck::PortConfig => "Port config",
            StateCheck::LeverageSanity => "Leverage sanity check",
            StateCheck::DepositVerifySanity => "Deposit verify sanity check",
            StateCheck::RedeemVerifySanity => "Redeem verify sanity check",
            StateCheck::OnlyOneVerified => "Only one of deposit and redeem can be enabled",
            StateCheck::RedeemedSanity => "Redeemed sanity check",
            StateCheck::InitLiquidity => "Init liquidity",
        }
    }
}

/// Whether `pool` satisfies every invariant of a pool at rest between two
/// operations.
pub open spec fn pool_valid(pool: &PolePortPool) -> bool {
    &&& StateCheck::GenericConfig.holds(pool)
    &&& StateCheck::PortConfig.holds(pool)
    &&& StateCheck::LeverageSanity.holds(pool)
    &&& StateCheck::DepositVerifySanity.holds(pool)
    &&& StateCheck::RedeemVerifySanity.holds(pool)
    &&& StateCheck::OnlyOneVerified.holds(pool)
    &&& StateCheck::RedeemedSanity.holds(pool)
    &&& StateCheck::InitLiquidity.holds(pool)
}

/// The first check, in the validator's order, that `pool` fails.
pub open spec fn first_violation(pool: &PolePortPool) -> Option<StateCheck> {
    if !StateCheck::GenericConfig.holds(pool) {
        Some(StateCheck::GenericConfig)
    } else if !StateCheck::PortConfig.holds(pool) {
        Some(StateCheck::PortConfig)
    } else if !StateCheck::LeverageSanity.holds(pool) {
        Some(StateCheck::LeverageSanity)
    } else if !StateCheck::DepositVerifySanity.holds(pool) {
        Some(StateCheck::DepositVerifySanity)
    } else if !StateCheck::RedeemVerifySanity.holds(pool) {
        Some(StateCheck::RedeemVerifySanity)
    } else if !StateCheck::OnlyOneVerified.holds(pool) {
        Some(StateCheck::OnlyOneVerified)
    } else if !StateCheck::RedeemedSanity.holds(pool) {
        Some(StateCheck::RedeemedSanity)
    } else if !StateCheck::InitLiquidity.holds(pool) {
        Some(StateCheck::InitLiquidity)
    } else {
        None
    }
}

/// What an operation is refused for before it does anything. The pool's
/// invariants are checked first; `rejection` is what the operation's own
/// checks of its accounts and arguments make of a valid pool.
pub open spec fn admission(pool: &PolePortPool, rejection: Option<PoleError>) -> Option<
    PoleError,
> {
    if !pool_valid(pool) {
        Some(PoleError::InvalidPoolState)
    } else {
        rejection
    }
}

/// Finds the first invariant that `pool` violates, if there is one.
pub fn violated_invariant(pool: &PolePortPool) -> (r: Option<StateCheck>)
    ensures
        r == first_violation(pool),
        r is None <==> pool_valid(pool),
{
    let state = &pool.port_state;
    if !pool.generic_config.validate() {
        return Some(StateCheck::GenericConfig);
    }
    if !pool.port_config.validate() {
        return Some(StateCheck::PortConfig);
    }
    if !(pool.port_config.port_iterate > state.leverage) {
        return Some(StateCheck::LeverageSanity);
    }
    if !(state.deposit_verified == 0 || state.deposit_verified == 1) {
        return Some(StateCheck::DepositVerifySanity);
    }
    if !(state.redeem_verified == 0 || state.redeem_verified == 1) {
        return Some(StateCheck::RedeemVerifySanity);
    }
    if state.redeem_verified == 1 && state.deposit_verified == 1 {
        return Some(StateCheck::OnlyOneVerified);
    }
    if !(state.is_redeemed == 0 || state.is_redeemed == 1) {
        return Some(StateCheck::RedeemedSanity);
    }
    let snapshot_ok = if state.leverage == 0 {
        state.init_port_liquidity.is_zero() && state.user_liquidity_percentage.is_zero()
            && state.amount_to_unroll == 0 && state.redeem_amount == 0
    } else if pool.basic_state.lp_amount != 0 {
        !state.init_port_liquidity.is_zero()
    } else {
        true
    };
    if !snapshot_ok {
        return Some(StateCheck::InitLiquidity);
    }
    None
}

/// The validator: accepts `pool` exactly when it satisfies every invariant,
/// and otherwise refuses it as an invalid pool state.
pub fn valid_pole_pool(pool: &PolePortPool) -> (r: Result<(), PoleError>)
    ensures
        r is Ok <==> pool_valid(pool),
        r matches Err(e) ==> e == PoleError::InvalidPoolState,
{
    match violated_invariant(pool) {
        Some(_) => Err(PoleError::InvalidPoolState),
        None => Ok(()),
    }
}

/// In a pool that the validator accepts, fewer steps have been taken than a
/// round has, and the deposit and the redeem flag are never both set.
pub proof fn lemma_valid_pool_bounds(pool: PolePortPool)
    requires
        pool_valid(&pool),
    ensures
        pool.port_state.leverage < pool.port_config.port_iterate,
        1 <= pool.port_config.port_iterate < 10,
        1 <= pool.port_config.port_reserve_percentage <= 20,
        !(pool.port_state.deposit_verified == 1 && pool.port_state.redeem_verified == 1),
{
}

/// What one step of a leverage round does with the lending protocol.
#[derive(Clone, Copy, Debug, PartialEq, Eq, Structural)]
pub struct LeveragePlan {
    /// Liquidity to supply as collateral: all that the pool's wallet holds.
    pub supply: u64,
    /// Liquidity to borrow back after a refresh; none on the last step.
    pub borrow: Option<u64>,
}

/// What `port_lending_leveraging` returns.
pub open spec fn leverage_plan(
    available_liquidity: u64,
    borrow_fraction: u64,
    iterate: u8,
    current_leverage: u8,
) -> Result<LeveragePlan, PoleError> {
    if iterate == 0 {
        Err(PoleError::MathOverflow)
    } else if current_leverage < iterate - 1 {
        if available_liquidity * borrow_fraction <= u64::MAX {
            Ok(
                (LeveragePlan {
                    supply: available_liquidity,
                    borrow: Some((available_liquidity * borrow_fraction / 100) as u64),
                }),
            )
        } else {
            Err(PoleError::MathOverflow)
        }
    } else {
        Ok((LeveragePlan { supply: available_liquidity, borrow: None }))
    }
}

/// Plans one step of a leverage round: supply everything the wallet holds
/// and, on every step but the last, borrow `borrow_fraction` percent of it
/// back. Fails when there is no step to take or the product leaves 64 bits.
pub fn port_lending_leveraging(
    available_liquidity: u64,
    borrow_fraction: u64,
    iterate: u8,
    current_leverage: u8,
) -> (r: Result<LeveragePlan, PoleError>)
    ensures
        r == leverage_plan(available_liquidity, borrow_fraction, iterate, current_leverage),
{
    let last: u8 = match iterate.checked_sub(1) {
        Some(v) => v,
        None => { return Err(PoleError::MathOverflow); },
    };
    if current_leverage < last {
        match available_liquidity.checked_mul(borrow_fraction) {
            Some(product) => Ok(
                LeveragePlan { supply: available_liquidity, borrow: Some(product / 100) },
            ),
            None => Err(PoleError::MathOverflow),
        }
    } else {
        Ok(LeveragePlan { supply: available_liquidity, borrow: None })
    }
}

/// Which accounts a refresh of the lending position names.
#[derive(Clone, Copy, Debug, PartialEq, Eq, Structural)]
pub enum RefreshPlan {
    /// Refresh the reserve; the position holds nothing to refresh.
    ReserveOnly,
    /// Refresh the reserve, then the position with the reserve named once.
    PositionWithDeposit,
    /// Refresh the reserve, then the position with the reserve named twice.
    PositionWithDepositAndBorrow,
}

/// Plans a refresh from the number of deposits and borrows that the lending
/// position holds.
pub fn refresh_port_reserve_and_obligation(deposits_count: u8, borrows_count: u8) -> (r:
    RefreshPlan)
    ensures
        r == if deposits_count == 0 && borrows_count == 0 {
            RefreshPlan::ReserveOnly
        } else if deposits_count == 1 && borrows_count == 0 {
            RefreshPlan::PositionWithDeposit
        } else {
            RefreshPlan::PositionWithDepositAndBorrow
        },
{
    if deposits_count == 0 && borrows_count == 0 {
        RefreshPlan::ReserveOnly
    } else if deposits_count == 1 && borrows_count == 0 {
        RefreshPlan::PositionWithDeposit
    } else {
        RefreshPlan::PositionWithDepositAndBorrow
    }
}

/// The scaled value `ratio * liquidity` rounded up to whole units.
pub open spec fn repay_for(ratio: nat, liquidity: nat) -> nat {
    ((ratio * liquidity + WAD - 1) / (WAD as int)) as nat
}

/// One level of the unwinding. To free `unroll_amount` of liquidity the pool
/// withdraws one unit of collateral more than that liquidity is worth; the
/// liquidity which that collateral is worth, plus one unit, times the repay
/// ratio and rounded up, is what the level before has to repay. The result is
/// the pair `(repay, withdraw)`.
pub open spec fn unroll_level(
    rate: CollateralExchangeRate,
    repay_ratio: Decimal,
    unroll_amount: u64,
) -> Result<(u64, u64), PoleError> {
    match rate.spec_liquidity_to_collateral(unroll_amount) {
        Err(e) => Err(e),
        Ok(collateral) => if collateral == u64::MAX {
            Err(PoleError::MathOverflow)
        } else {
            let withdraw = (collateral + 1) as u64;
            match rate.spec_collateral_to_liquidity(withdraw) {
                Err(e) => Err(e),
                Ok(liquidity) => if liquidity == u64::MAX {
                    Err(PoleError::MathOverflow)
                } else {
                    let available = (liquidity + 1) as nat;
                    let repay = repay_for(repay_ratio@, available);
                    if repay_ratio@ * available + WAD - 1 < pow192() && repay <= u64::MAX {
                        Ok((repay as u64, withdraw))
                    } else {
                        Err(PoleError::MathOverflow)
                    }
                },
            }
        },
    }
}

/// The first `levels` levels of the unwinding that frees `target_unroll`:
/// the first level starts from the target, every other level from what the
/// level before it has to repay.
pub open spec fn unrolled(
    rate: CollateralExchangeRate,
    repay_ratio: Decimal,
    target_unroll: u64,
    levels: nat,
) -> Result<Seq<(u64, u64)>, PoleError>
    decreases levels,
{
    if levels == 0 {
        Ok(Seq::empty())
    } else {
        match unrolled(rate, repay_ratio, target_unroll, (levels - 1) as nat) {
            Err(e) => Err(e),
            Ok(before) => {
                let amount = if before.len() == 0 {
                    target_unroll
                } else {
                    before.last().0
                };
                match unroll_level(rate, repay_ratio, amount) {
                    Err(e) => Err(e),
                    Ok(pair) => Ok(before.push(pair)),
                }
            },
        }
    }
}

/// A schedule of `levels` levels has `levels` entries, and a failure at one
/// level is the failure of every longer schedule.
pub proof fn lemma_unrolled_shape(
    rate: CollateralExchangeRate,
    repay_ratio: Decimal,
    target_unroll: u64,
    levels: nat,
    more: nat,
)
    requires
        levels <= more,
    ensures
        unrolled(rate, repay_ratio, target_unroll, levels) matches Ok(s) ==> s.len() == levels,
        unrolled(rate, repay_ratio, target_unroll, levels) matches Err(e) ==> e
            == PoleError::MathOverflow && unrolled(rate, repay_ratio, target_unroll, more) == Err::<
            Seq<(u64, u64)>,
            PoleError,
        >(e),
    decreases more,
{
    if levels > 0 {
        lemma_unrolled_shape(
            rate,
            repay_ratio,
            target_unroll,
            (levels - 1) as nat,
            (levels - 1) as nat,
        );
    }
    if levels < more {
        lemma_unrolled_shape(rate, repay_ratio, target_unroll, levels, (more - 1) as nat);
    }
}

/// A level of the unwinding frees enough. The collateral that it withdraws is
/// worth at least the liquidity that it has to free, and what it asks the
/// level before to repay covers the repay ratio of what that collateral is
/// worth and one unit more.
pub proof fn lemma_unroll_level_frees_enough(
    rate: CollateralExchangeRate,
    repay_ratio: Decimal,
    unroll_amount: u64,
)
    ensures
        unroll_level(rate, repay_ratio, unroll_amount) matches Ok((repay, withdraw)) ==> {
            let freed = crate::lending::liquidity_of_collateral(rate.0@, withdraw as nat);
            &&& freed >= unroll_amount
            &&& repay * WAD >= repay_ratio@ * (freed + 1)
        },
{
    if let Ok((repay, withdraw)) = unroll_level(rate, repay_ratio, unroll_amount) {
        let w = WAD as int;
        let r = rate.0@ as int;
        let u = unroll_amount as int;
        let c = withdraw as int;
        let first = (u * w) * r / w;
        assert(first == u * r) by (nonlinear_arith)
            requires
                first == (u * w) * r / w,
                w > 0,
        ;
        assert(c * w > u * r) by (nonlinear_arith)
            requires
                c == (u * r) / w + 1,
                w > 0,
        ;
        let scaled = (c * w) * w;
        assert(scaled / r >= u * w) by (nonlinear_arith)
            requires
                scaled == (c * w) * w,
                c * w > u * r,
                r > 0,
                w > 0,
                u >= 0,
        ;
        assert((scaled / r) / w >= u) by (nonlinear_arith)
            requires
                scaled / r >= u * w,
                w > 0,
        ;
        let freed = crate::lending::liquidity_of_collateral(rate.0@, withdraw as nat);
        let product = repay_ratio@ * (freed + 1);
        assert(((product + w - 1) / w) * w >= product) by (nonlinear_arith)
            requires
                w > 0,
                product >= 0,
        ;
    }
}

/// Computes one level of the unwinding.
pub fn unroll_step(rate: &CollateralExchangeRate, repay_ratio: Decimal, unroll_amount: u64) -> (r:
    Result<(u64, u64), PoleError>)
    ensures
        r == unroll_level(*rate, repay_ratio, unroll_amount),
{
    let collateral = rate.liquidity_to_collateral(unroll_amount)?;
    let withdraw: u64 = match collateral.checked_add(1) {
        Some(v) => v,
        None => { return Err(PoleError::MathOverflow); },
    };
    let liquidity = rate.collateral_to_liquidity(withdraw)?;
    let available: u64 = match liquidity.checked_add(1) {
        Some(v) => v,
        None => { return Err(PoleError::MathOverflow); },
    };
    let scaled = repay_ratio.try_mul(available)?;
    let repay = scaled.try_ceil_u64()?;
    Ok((repay, withdraw))
}

/// Derives, level by level, what each of the next `steps_remaining` steps of
/// an unwinding repays and withdraws so that the last of them frees
/// `target_unroll`. Fails as soon as one level's arithmetic fails.
pub fn derive_repay_schedule(
    target_unroll: u64,
    steps_remaining: u8,
    repay_ratio: Decimal,
    exchange_rate: &CollateralExchangeRate,
) -> (r: Result<Vec<(u64, u64)>, PoleError>)
    ensures
        r matches Ok(v) ==> unrolled(
            *exchange_rate,
            repay_ratio,
            target_unroll,
            steps_remaining as nat,
        ) == Ok::<Seq<(u64, u64)>, PoleError>(v@),
        r matches Err(e) ==> unrolled(
            *exchange_rate,
            repay_ratio,
            target_unroll,
            steps_remaining as nat,
        ) == Err::<Seq<(u64, u64)>, PoleError>(e),
{
    let mut schedule: Vec<(u64, u64)> = Vec::new();
    let mut amount: u64 = target_unroll;
    let mut level: u8 = 0;
    while level < steps_remaining
        invariant
            level <= steps_remaining,
            schedule@.len() == level,
            unrolled(*exchange_rate, repay_ratio, target_unroll, level as nat) == Ok::<
                Seq<(u64, u64)>,
                PoleError,
            >(schedule@),
            amount == if schedule@.len() == 0 {
                target_unroll
            } else {
                schedule@.last().0
            },
        decreases steps_remaining - level,
    {
        match unroll_step(exchange_rate, repay_ratio, amount) {
            Ok(pair) => {
                schedule.push(pair);
                amount = pair.0;
            },
            Err(e) => {
                proof {
                    lemma_unrolled_shape(
                        *exchange_rate,
                        repay_ratio,
                        target_unroll,
                        (level + 1) as nat,
                        steps_remaining as nat,
                    );
                }
                return Err(e);
            },
        }
        level += 1;
    }
    Ok(schedule)
}

/// What one step of an unwinding does with the lending protocol.
#[derive(Clone, Copy, Debug, PartialEq, Eq, Structural)]
pub struct UnrollPlan {
    /// Liquidity to repay first, followed by a refresh; none on the first
    /// step of a round, which only withdraws.
    pub repay: Option<u64>,
    /// Collateral to withdraw and to redeem for liquidity.
    pub withdraw: u64,
}

/// What `port_lending_unroll` returns.
pub open spec fn unroll_plan(
    port_exchange_rate: CollateralExchangeRate,
    repay_ratio: Decimal,
    iterate: u8,
    current_leverage: u8,
    unroll_amount: u64,
) -> Result<UnrollPlan, PoleError> {
    if current_leverage > iterate {
        Err(PoleError::MathOverflow)
    } else {
        match unrolled(
            port_exchange_rate,
            repay_ratio,
            unroll_amount,
            (iterate - current_leverage) as nat,
        ) {
            Err(e) => Err(e),
            Ok(levels) => {
                let (repay, withdraw) = if levels.len() == 0 {
                    (0u64, 0u64)
                } else {
                    levels.last()
                };
                Ok(
                    (UnrollPlan {
                        repay: if current_leverage == 0 {
                            None
                        } else {
                            Some(repay)
                        },
                        withdraw,
                    }),
                )
            },
        }
    }
}

/// Plans one step of an unwinding. The schedule is derived for all the steps
/// that remain, `iterate - current_leverage` of them, and this step acts on
/// its last level: it withdraws that level's collateral, after repaying that
/// level's amount on every step but the first of the round.
pub fn port_lending_unroll(
    port_exchange_rate: &CollateralExchangeRate,
    repay_ratio: Decimal,
    iterate: u8,
    current_leverage: u8,
    unroll_amount: u64,
) -> (r: Result<UnrollPlan, PoleError>)
    ensures
        r == unroll_plan(*port_exchange_rate, repay_ratio, iterate, current_leverage, unroll_amount),
{
    let steps: u8 = match iterate.checked_sub(current_leverage) {
        Some(v) => v,
        None => { return Err(PoleError::MathOverflow); },
    };
    let schedule = derive_repay_schedule(unroll_amount, steps, repay_ratio, port_exchange_rate)?;
    let (repay, withdraw): (u64, u64) = if schedule.len() == 0 {
        (0, 0)
    } else {
        schedule[schedule.len() - 1]
    };
    Ok(
        UnrollPlan {
            repay: if current_leverage == 0 {
                None
            } else {
                Some(repay)
            },
            withdraw,
        },
    )
}

} // verus!
