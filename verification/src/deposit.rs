//! The leverage engine: one step of a deposit round per call.
//!
//! A round of `N` steps turns a deposit into a leveraged position. Its first
//! step takes the deposit into the pool's wallet and records the position's
//! liquidity and the depositor's share of what the round will supply. Every
//! step supplies all the idle liquidity as collateral, and every step but the
//! last borrows part of it back. When the last step has been carried out,
//! the liquidity that the position gained is credited to the depositor in
//! shares and the pool returns to rest.
//!
//! [`plan_deposit`] says what a step has to do with the outside world;
//! [`deposit_liquidity`] is the step itself, applied to the pool once that
//! has been done and its effect observed.

use vstd::prelude::*;
use vstd::arithmetic::div_mod::lemma_div_is_ordered_by_denominator;
use crate::error::PoleError;
use crate::event::DidDeposit;
use crate::fixed::{lemma_rate_from_value, pow192, Decimal, Rate, WAD};
use crate::helpers::{
    admission, leverage_plan, pool_valid, port_lending_leveraging, valid_pole_pool,
};
use crate::instructions::DepositLiquidity;
use crate::states::{liquidity_to_lp_at, rate_of, BasicState, PolePortPool, PortState};

verus! {

/// What a deposit step has to do with the outside world, in this order, and
/// the figures of the round that it belongs to.
#[derive(Clone, Copy, Debug, PartialEq, Eq, Structural)]
pub struct DepositPlan {
    /// Liquidity to move from the user's wallet to the pool's: the deposit on
    /// the first step, nothing afterwards.
    pub transfer: Option<u64>,
    /// Liquidity to supply as collateral: all that the pool's wallet holds
    /// once the deposit has come in.
    pub supply: u64,
    /// Liquidity to borrow back after a refresh; none on the last step.
    pub borrow: Option<u64>,
    /// Whether this step is the last of its round.
    pub completes: bool,
    /// Liquidity of the lending position when the round began.
    pub init_port_liquidity: Decimal,
    /// The depositor's share of what the round supplies.
    pub user_liquidity_percentage: Rate,
}

/// What is observed once a step has been carried out.
#[derive(Clone, Copy, Debug, PartialEq, Eq, Structural)]
pub struct DepositSettlement {
    /// Liquidity that the lending position is worth.
    pub port_liquidity: Decimal,
    /// Liquidity left idle in the pool's wallet.
    pub pole_liquidity: u64,
}

/// The depositor's share of a round, scaled: the deposit over the deposit
/// and the liquidity that lay idle before it, rounded down.
pub open spec fn round_share(amount: u64, idle: u64) -> nat {
    ((amount * WAD) / (amount + idle)) as nat
}

/// What the first step of a round records as the depositor's share, or the
/// reason for which the deposit is refused: the position, the idle liquidity
/// and the deposit together have to stay below the liquidity cap.
pub open spec fn deposit_opening(pool: &PolePortPool, accounts: &DepositLiquidity, amount: u64)
    -> Result<Rate, PoleError> {
    let idle = accounts.pole_liquidity_accounts.pole_liquidity;
    let position = accounts.port_accounts.position.liquidity@;
    let total = position + idle * WAD + amount * WAD;
    if position + idle * WAD >= pow192() || total >= pow192() {
        Err(PoleError::MathOverflow)
    } else if total >= pool.generic_config.liquidity_cap * WAD {
        Err(PoleError::MeetDepositLimit)
    } else if amount + idle > u64::MAX || amount + idle == 0 {
        Err(PoleError::MathOverflow)
    } else {
        Ok(Rate::from_value(round_share(amount, idle)))
    }
}

/// What `plan_deposit` returns. The pool's invariants are checked first, then
/// the accounts; the first step then opens the round; the fraction to borrow
/// is the loan-to-value ratio less the pool's safety margin.
pub open spec fn deposit_plan(pool: &PolePortPool, accounts: &DepositLiquidity, amount: u64)
    -> Result<DepositPlan, PoleError> {
    let state = pool.port_state;
    let position = accounts.port_accounts.position;
    let idle = accounts.pole_liquidity_accounts.pole_liquidity;
    let opening = if state.leverage == 0 {
        deposit_opening(pool, accounts, amount)
    } else {
        Ok(state.user_liquidity_percentage)
    };
    match admission(pool, accounts.rejection(pool, amount)) {
        Some(e) => Err(e),
        None => {
            match opening {
                Err(e) => Err(e),
                Ok(share) => if position.loan_to_value < pool.port_config.port_reserve_percentage {
                    Err(PoleError::MathOverflow)
                } else {
                    match leverage_plan(
                        (idle + amount) as u64,
                        (position.loan_to_value - pool.port_config.port_reserve_percentage) as u64,
                        pool.port_config.port_iterate as u8,
                        state.leverage as u8,
                    ) {
                        Err(e) => Err(e),
                        Ok(step) => Ok(
                            (DepositPlan {
                                transfer: if state.leverage == 0 {
                                    Some(amount)
                                } else {
                                    None
                                },
                                supply: step.supply,
                                borrow: step.borrow,
                                completes: state.leverage + 1 == pool.port_config.port_iterate,
                                init_port_liquidity: if state.leverage == 0 {
                                    position.liquidity
                                } else {
                                    state.init_port_liquidity
                                },
                                user_liquidity_percentage: share,
                            }),
                        ),
                    }
                },
            }
        },
    }
}

/// The liquidity that a round gained for its depositor: the growth of the
/// position times the depositor's share, rounded down to whole units.
pub open spec fn round_gain(init: nat, after: nat, share: nat) -> nat {
    ((((after - init) * share) / (WAD as int)) / (WAD as int)) as nat
}

/// The pool after a round that completes with `plan`, and what it announces,
/// when `after` is what the position is worth at the end. The gain is priced
/// at the share price of the pool without it; the shares it buys are minted,
/// the progress state returns to rest, and the slot of the last harvest is
/// set if it never was.
pub open spec fn deposit_settled(
    pool: &PolePortPool,
    plan: DepositPlan,
    clock_slot: u64,
    after: Decimal,
) -> Result<(PolePortPool, DidDeposit), PoleError> {
    let init = plan.init_port_liquidity@;
    let share = plan.user_liquidity_percentage@;
    let gain = round_gain(init, after@, share);
    if after@ < init || (after@ - init) * share >= pow192() || gain > u64::MAX || after@ < gain
        * WAD {
        Err(PoleError::MathOverflow)
    } else {
        let rate = rate_of(pool.basic_state.lp_amount as nat, (after@ - gain * WAD) as nat);
        match liquidity_to_lp_at(rate, gain as u64) {
            Err(e) => Err(e),
            Ok(minted) => if pool.basic_state.lp_amount + minted > u64::MAX {
                Err(PoleError::MathOverflow)
            } else {
                Ok(
                    (
                        PolePortPool {
                            basic_state: BasicState {
                                lp_amount: (pool.basic_state.lp_amount + minted) as u64,
                            },
                            port_state: PortState::idle(
                                if pool.port_state.last_sold_slot == 0 {
                                    clock_slot
                                } else {
                                    pool.port_state.last_sold_slot
                                },
                            ),
                            ..*pool
                        },
                        DidDeposit {
                            liquidity_amount_deposited: gain as u64,
                            lp_amount_minted: minted,
                        },
                    ),
                )
            },
        }
    }
}

/// The pool after a deposit step, and what the step announces. A step that
/// does not complete its round records the round's figures and counts one
/// step more; the step that completes it settles the round.
pub open spec fn deposit_outcome(
    pool: &PolePortPool,
    accounts: &DepositLiquidity,
    amount: u64,
    after: Decimal,
) -> Result<(PolePortPool, Option<DidDeposit>), PoleError> {
    match deposit_plan(pool, accounts, amount) {
        Err(e) => Err(e),
        Ok(plan) => if plan.completes {
            match deposit_settled(pool, plan, accounts.clock_slot, after) {
                Err(e) => Err(e),
                Ok((settled, event)) => Ok((settled, Some(event))),
            }
        } else {
            Ok(
                (
                    PolePortPool {
                        port_state: PortState {
                            leverage: (pool.port_state.leverage + 1) as u64,
                            init_port_liquidity: plan.init_port_liquidity,
                            user_liquidity_percentage: plan.user_liquidity_percentage,
                            ..pool.port_state
                        },
                        ..*pool
                    },
                    None,
                ),
            )
        },
    }
}

/// Opens a round: checks the deposit against the liquidity cap and computes
/// the depositor's share.
fn open_round(pool: &PolePortPool, accounts: &DepositLiquidity, amount: u64) -> (r: Result<
    Rate,
    PoleError,
>)
    ensures
        r == deposit_opening(pool, accounts, amount),
{
    let idle = accounts.pole_liquidity_accounts.pole_liquidity;
    let position = accounts.port_accounts.position.liquidity;
    let with_idle = position.try_add(Decimal::from_u64(idle))?;
    let total = with_idle.try_add(Decimal::from_u64(amount))?;
    if total.ge(&Decimal::from_u64(pool.generic_config.liquidity_cap)) {
        return Err(PoleError::MeetDepositLimit);
    }
    let both: u64 = match amount.checked_add(idle) {
        Some(v) => v,
        None => { return Err(PoleError::MathOverflow); },
    };
    let scaled = Decimal::from_u64(amount).try_div_u64(both)?;
    proof {
        lemma_div_is_ordered_by_denominator((amount * WAD) as int, 1, both as int);
        assert(scaled@ <= amount * 1_000_000_000_000_000_000);
    }
    let share = Rate::try_from_decimal(scaled)?;
    proof {
        lemma_rate_from_value(share);
    }
    Ok(share)
}

/// Plans a deposit step: what to transfer, supply and borrow, and the
/// figures of the round. Everything idle is supplied, and the last step of a
/// round borrows nothing, so that a completed round leaves the pool's wallet
/// empty.
pub fn plan_deposit(pool: &PolePortPool, accounts: &DepositLiquidity, amount: u64) -> (r: Result<
    DepositPlan,
    PoleError,
>)
    ensures
        r == deposit_plan(pool, accounts, amount),
        r matches Ok(plan) ==> {
            &&& plan.supply == accounts.pole_liquidity_accounts.pole_liquidity + amount
            &&& plan.completes ==> plan.borrow is None
            &&& plan.transfer is Some <==> pool.port_state.leverage == 0
        },
{
    valid_pole_pool(pool)?;
    accounts.check(pool, amount)?;
    let state = &pool.port_state;
    let position = &accounts.port_accounts.position;
    let idle = accounts.pole_liquidity_accounts.pole_liquidity;
    let share = if state.leverage == 0 {
        open_round(pool, accounts, amount)?
    } else {
        state.user_liquidity_percentage
    };
    let margin = pool.port_config.port_reserve_percentage;
    if (position.loan_to_value as u64) < margin {
        return Err(PoleError::MathOverflow);
    }
    let borrow_fraction: u64 = position.loan_to_value as u64 - margin;
    let step = port_lending_leveraging(
        idle + amount,
        borrow_fraction,
        pool.port_config.port_iterate as u8,
        state.leverage as u8,
    )?;
    Ok(
        DepositPlan {
            transfer: if state.leverage == 0 {
                Some(amount)
            } else {
                None
            },
            supply: step.supply,
            borrow: step.borrow,
            completes: state.leverage + 1 == pool.port_config.port_iterate,
            init_port_liquidity: if state.leverage == 0 {
                position.liquidity
            } else {
                state.init_port_liquidity
            },
            user_liquidity_percentage: share,
        },
    )
}

/// Settles a round: prices the gain and credits it in shares.
fn settle_round(pool: &PolePortPool, plan: &DepositPlan, clock_slot: u64, after: Decimal) -> (r:
    Result<(PolePortPool, DidDeposit), PoleError>)
    ensures
        r == deposit_settled(pool, *plan, clock_slot, after),
{
    let grown = after.try_sub(plan.init_port_liquidity)?;
    let scaled = grown.try_mul_rate(plan.user_liquidity_percentage)?;
    let gain = scaled.try_floor_u64()?;
    let base = after.try_sub(Decimal::from_u64(gain))?;
    let rate = pool.basic_state.exchange_rate(base)?;
    let minted = rate.liquidity_to_lp(gain)?;
    let lp_amount: u64 = match pool.basic_state.lp_amount.checked_add(minted) {
        Some(v) => v,
        None => { return Err(PoleError::MathOverflow); },
    };
    let mut settled = *pool;
    settled.basic_state.lp_amount = lp_amount;
    settled.port_state.reset();
    if settled.port_state.last_sold_slot == 0 {
        settled.port_state.last_sold_slot = clock_slot;
    }
    Ok((settled, DidDeposit { liquidity_amount_deposited: gain, lp_amount_minted: minted }))
}

/// Takes one step of a deposit round, once the step's plan has been carried
/// out. `settlement` is what was observed afterwards; it is looked at on the
/// step that completes the round, where the pool's wallet has to be empty.
///
/// On success the pool has counted the step: the count of steps taken goes up
/// by one, and returns to zero with the step that completes the round. That
/// step also mints the shares that the returned event names. On failure the
/// pool is as it was.
pub fn deposit_liquidity(
    pool: &mut PolePortPool,
    accounts: &DepositLiquidity,
    amount: u64,
    settlement: &DepositSettlement,
) -> (r: Result<Option<DidDeposit>, PoleError>)
    requires
        old(pool).port_state.leverage + 1 == old(pool).port_config.port_iterate
            ==> settlement.pole_liquidity == 0,
    ensures
        match deposit_outcome(old(pool), accounts, amount, settlement.port_liquidity) {
            Ok((after, event)) => r == Ok::<Option<DidDeposit>, PoleError>(event) && *final(pool)
                == after,
            Err(e) => r == Err::<Option<DidDeposit>, PoleError>(e) && *final(pool) == *old(pool),
        },
        pool_valid(old(pool)) ==> final(pool).port_state.leverage
            < final(pool).port_config.port_iterate,
        r is Ok ==> {
            &&& pool_valid(old(pool))
            &&& final(pool).port_config == old(pool).port_config
            &&& final(pool).port_state.leverage < final(pool).port_config.port_iterate
            &&& final(pool).port_state.leverage == if old(pool).port_state.leverage + 1 == old(
                pool,
            ).port_config.port_iterate {
                0
            } else {
                old(pool).port_state.leverage + 1
            }
            &&& !(final(pool).port_state.deposit_verified == 1
                && final(pool).port_state.redeem_verified == 1)
        },
{
    let plan = plan_deposit(pool, accounts, amount)?;
    if plan.completes {
        let (settled, event) = settle_round(pool, &plan, accounts.clock_slot, settlement.port_liquidity)?;
        *pool = settled;
        Ok(Some(event))
    } else {
        pool.port_state.leverage = pool.port_state.leverage + 1;
        pool.port_state.init_port_liquidity = plan.init_port_liquidity;
        pool.port_state.user_liquidity_percentage = plan.user_liquidity_percentage;
        Ok(None)
    }
}

/// The count of steps through a deposit round. Every successful step starts
/// from a count below the number of steps `N` of a round and ends on one: the
/// count goes up by exactly one, and returns to zero exactly when it would
/// reach `N`. That step, and no other, announces the deposit. The deposit and
/// the redeem flag are not both set afterwards.
pub proof fn lemma_deposit_counts_steps(
    pool: PolePortPool,
    accounts: DepositLiquidity,
    amount: u64,
    after: Decimal,
)
    ensures
        deposit_outcome(&pool, &accounts, amount, after) matches Ok((next, event)) ==> {
            &&& pool.port_state.leverage < pool.port_config.port_iterate
            &&& next.port_config.port_iterate == pool.port_config.port_iterate
            &&& next.port_state.leverage < next.port_config.port_iterate
            &&& next.port_state.leverage == if pool.port_state.leverage + 1
                == pool.port_config.port_iterate {
                0
            } else {
                pool.port_state.leverage + 1
            }
            &&& event is Some <==> next.port_state.leverage == 0
            &&& !(next.port_state.deposit_verified == 1 && next.port_state.redeem_verified == 1)
        },
{
}

/// A depositor's share of a round is at most one.
pub proof fn lemma_round_share_at_most_one(amount: u64, idle: u64)
    requires
        amount + idle > 0,
    ensures
        round_share(amount, idle) <= WAD,
{
    let a = amount as int;
    let t = amount + idle;
    let w = WAD as int;
    assert((a * w) / t <= w) by (nonlinear_arith)
        requires
            0 <= a <= t,
            t > 0,
            w > 0,
    ;
}

/// A round never issues more than it gained. The shares minted when a round
/// is settled add to the shares outstanding, and at the price at which they
/// were minted they are worth no more than the gain that they were minted
/// for. With a share of the round of at most one, that gain is no more than
/// the growth of the lending position.
pub proof fn lemma_deposit_never_over_issues(
    pool: PolePortPool,
    plan: DepositPlan,
    clock_slot: u64,
    after: Decimal,
)
    ensures
        deposit_settled(&pool, plan, clock_slot, after) matches Ok((next, event)) ==> {
            let gain = event.liquidity_amount_deposited;
            let rate = rate_of(pool.basic_state.lp_amount as nat, (after@ - gain * WAD) as nat);
            &&& next.basic_state.lp_amount == pool.basic_state.lp_amount + event.lp_amount_minted
            &&& crate::states::lp_to_liquidity_at(rate, event.lp_amount_minted) matches Ok(worth)
                ==> worth <= gain
            &&& plan.user_liquidity_percentage@ <= WAD ==> gain * WAD <= after@
                - plan.init_port_liquidity@
        },
{
    if let Ok((next, event)) = deposit_settled(&pool, plan, clock_slot, after) {
        let gain = event.liquidity_amount_deposited;
        let rate = rate_of(pool.basic_state.lp_amount as nat, (after@ - gain * WAD) as nat);
        if rate > 0 {
            crate::states::lemma_liquidity_for_shares_for(rate, gain as nat);
        }
        let grown = after@ - plan.init_port_liquidity@;
        let share = plan.user_liquidity_percentage@ as int;
        let w = WAD as int;
        if share <= w {
            assert(((grown * share) / w) / w * w <= grown) by (nonlinear_arith)
                requires
                    0 <= share <= w,
                    grown >= 0,
                    w > 0,
            ;
        }
    }
}

/// The count of steps stays below the number of steps of a round after every
/// deposit step on a pool that the validator accepts, whether the step
/// succeeds or is refused.
pub proof fn lemma_deposit_keeps_count_below(
    pool: PolePortPool,
    accounts: DepositLiquidity,
    amount: u64,
    after: Decimal,
)
    requires
        pool_valid(&pool),
    ensures
        ({
            let left = match deposit_outcome(&pool, &accounts, amount, after) {
                Ok((next, _)) => next,
                Err(_) => pool,
            };
            left.port_state.leverage < left.port_config.port_iterate
        }),
{
}

/// One deposit step as it is handed to the pool: the accounts, the amount and
/// what the lending position is worth once the step has been carried out.
pub struct DepositCall {
    pub accounts: DepositLiquidity,
    pub amount: u64,
    pub after: Decimal,
}

/// The pool after a run of deposit steps, each applied to what the one before
/// it left; the first failure ends the run.
pub open spec fn deposit_run(pool: PolePortPool, calls: Seq<DepositCall>) -> Result<
    PolePortPool,
    PoleError,
>
    decreases calls.len(),
{
    if calls.len() == 0 {
        Ok(pool)
    } else {
        match deposit_run(pool, calls.drop_last()) {
            Err(e) => Err(e),
            Ok(before) => match deposit_outcome(
                &before,
                &calls.last().accounts,
                calls.last().amount,
                calls.last().after,
            ) {
                Err(e) => Err(e),
                Ok((next, _)) => Ok(next),
            },
        }
    }
}

/// A round takes all its steps. From a pool between rounds, a run of
/// successful deposit steps leaves the count of steps at the length of the
/// run modulo the number of steps `N` of a round: the count is back at zero
/// after `N` steps, and not before.
pub proof fn lemma_deposit_round_takes_all_steps(pool: PolePortPool, calls: Seq<DepositCall>)
    requires
        pool.port_state.leverage == 0,
        pool.port_config.port_iterate > 0,
    ensures
        deposit_run(pool, calls) matches Ok(last) ==> {
            &&& last.port_config.port_iterate == pool.port_config.port_iterate
            &&& last.port_state.leverage == calls.len() % (pool.port_config.port_iterate as nat)
        },
    decreases calls.len(),
{
    let n = pool.port_config.port_iterate as int;
    if calls.len() == 0 {
        assert(0int % n == 0) by (nonlinear_arith)
            requires
                n > 0,
        ;
    } else {
        lemma_deposit_round_takes_all_steps(pool, calls.drop_last());
        if let Ok(before) = deposit_run(pool, calls.drop_last()) {
            lemma_deposit_counts_steps(
                before,
                calls.last().accounts,
                calls.last().amount,
                calls.last().after,
            );
            let k = calls.len() - 1;
            crate::states::lemma_count_wraps(k, n);
        }
    }
}

} // verus!
