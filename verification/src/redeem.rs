//! The unleverage engine: one step of a redeem round per call.
//!
//! The first step of a round burns the shares, prices them, and records how
//! much liquidity has to be paid out and how much of it has to be freed from
//! the lending position. While anything has to be freed, each step unwinds
//! one level of leverage. The liquidity is paid out, less the withdrawal fee,
//! with the last step of the round, or at once if nothing had to be freed.
//! Every step counts, and the step that completes the round returns the pool
//! to rest.

use vstd::prelude::*;
use crate::error::PoleError;
use crate::event::DidRedeem;
use crate::fixed::{lemma_decimal_from_value, pow192, Decimal, BIPS_SCALER, PERCENT_SCALER, WAD};
use crate::helpers::{
    admission, pool_valid, port_lending_unroll, unroll_plan, valid_pole_pool, UnrollPlan,
};
use crate::instructions::RedeemLiquidity;
use crate::states::{lp_to_liquidity_at, rate_of, BasicState, PolePortPool, PortState};

verus! {

/// What is paid out of the pool's wallet when a redemption completes.
#[derive(Clone, Copy, Debug, PartialEq, Eq, Structural)]
pub struct Payout {
    /// The withdrawal fee, for the fee receiver.
    pub fee: u64,
    /// The rest, for the user.
    pub to_user: u64,
}

/// What a redeem step has to do with the outside world, in this order.
#[derive(Clone, Copy, Debug, PartialEq, Eq, Structural)]
pub struct RedeemStep {
    /// Shares to burn: those redeemed, on the first step of the round.
    pub burn: Option<u64>,
    /// What to repay to and withdraw from the lending protocol, if anything
    /// has to be freed.
    pub unroll: Option<UnrollPlan>,
    /// What to pay out, on the step that pays.
    pub payout: Option<Payout>,
    /// What to announce, on the step that pays.
    pub event: Option<DidRedeem>,
}

/// What the first step of a redeem round records.
#[derive(Clone, Copy, Debug, PartialEq, Eq, Structural)]
pub struct RedeemOpening {
    /// Liquidity that the redeemed shares are worth.
    pub redeem_amount: u64,
    /// The part of it that the pool's wallet does not hold yet.
    pub amount_to_unroll: u64,
    /// Shares that remain.
    pub lp_amount: u64,
}

/// The withdrawal fee on `redeem_amount` at `bips` basis points, rounded up.
pub open spec fn withdrawal_fee(bips: u64, redeem_amount: u64) -> nat {
    (((bips * BIPS_SCALER) * redeem_amount + WAD - 1) / (WAD as int)) as nat
}

/// What `payout_of` returns.
pub open spec fn spec_payout_of(bips: u64, redeem_amount: u64) -> Result<Payout, PoleError> {
    let fee = withdrawal_fee(bips, redeem_amount);
    if bips * BIPS_SCALER > u64::MAX || (bips * BIPS_SCALER) * redeem_amount + WAD - 1 >= pow192()
        || fee > redeem_amount {
        Err(PoleError::MathOverflow)
    } else {
        Ok((Payout { fee: fee as u64, to_user: (redeem_amount - fee) as u64 }))
    }
}

/// Splits `redeem_amount` into the withdrawal fee, at `bips` basis points and
/// rounded up, and the rest. The fee is the exact fraction raised to the next
/// whole unit, so it exceeds it by less than one unit. Fails when the fee
/// cannot be computed in the ranges of the fixed-point numbers, or exceeds the
/// amount.
pub fn payout_of(bips: u64, redeem_amount: u64) -> (r: Result<Payout, PoleError>)
    ensures
        r == spec_payout_of(bips, redeem_amount),
        r matches Ok(p) ==> {
            &&& p.fee + p.to_user == redeem_amount
            &&& 10_000 * p.fee >= bips * redeem_amount
            &&& 10_000 * p.fee < bips * redeem_amount + 10_000
        },
{
    let fee_rate = Decimal::from_bips(bips)?;
    let scaled = fee_rate.try_mul(redeem_amount)?;
    let fee = scaled.try_ceil_u64()?;
    if fee > redeem_amount {
        return Err(PoleError::MathOverflow);
    }
    proof {
        let x = bips * redeem_amount;
        assert((bips * 100_000_000_000_000) * redeem_amount == x * 100_000_000_000_000)
            by (nonlinear_arith)
            requires
                x == bips * redeem_amount,
        ;
    }
    Ok(Payout { fee, to_user: redeem_amount - fee })
}

/// What the first step of a redeem round records, or the reason for which
/// the redemption is refused. The shares are priced over all the pool's
/// liquidity, in the lending position and idle.
pub open spec fn redeem_opening(pool: &PolePortPool, accounts: &RedeemLiquidity, amount: u64)
    -> Result<RedeemOpening, PoleError> {
    let idle = accounts.pole_liquidity_accounts.pole_liquidity;
    let total = accounts.port_accounts.position.liquidity@ + idle * WAD;
    if total >= pow192() {
        Err(PoleError::MathOverflow)
    } else {
        match lp_to_liquidity_at(rate_of(pool.basic_state.lp_amount as nat, total as nat), amount) {
            Err(e) => Err(e),
            Ok(redeem_amount) => if amount > pool.basic_state.lp_amount {
                Err(PoleError::MathOverflow)
            } else {
                Ok(
                    (RedeemOpening {
                        redeem_amount,
                        amount_to_unroll: if redeem_amount > idle {
                            (redeem_amount - idle) as u64
                        } else {
                            0
                        },
                        lp_amount: (pool.basic_state.lp_amount - amount) as u64,
                    }),
                )
            },
        }
    }
}

/// What a step that still has to pay does with the lending protocol: nothing
/// if nothing has to be freed, else one step of the unwinding at a repay
/// ratio of the loan-to-value ratio less the pool's safety margin.
pub open spec fn redeem_unroll(
    pool: &PolePortPool,
    accounts: &RedeemLiquidity,
    amount_to_unroll: u64,
) -> Result<Option<UnrollPlan>, PoleError> {
    let position = accounts.port_accounts.position;
    let margin = pool.port_config.port_reserve_percentage as u8;
    if pool.port_state.leverage == 0 && amount_to_unroll == 0 {
        Ok(None)
    } else if position.loan_to_value < margin {
        Err(PoleError::MathOverflow)
    } else {
        match unroll_plan(
            position.exchange_rate,
            Decimal::from_value(((position.loan_to_value - margin) * PERCENT_SCALER) as nat),
            pool.port_config.port_iterate as u8,
            pool.port_state.leverage as u8,
            amount_to_unroll,
        ) {
            Err(e) => Err(e),
            Ok(plan) => Ok(Some(plan)),
        }
    }
}

/// The progress state once a step has been counted: at rest again if the
/// step completed the round.
pub open spec fn counted(state: PortState, iterate: u64) -> PortState {
    if state.leverage + 1 == iterate {
        PortState::idle(state.last_sold_slot)
    } else {
        PortState { leverage: (state.leverage + 1) as u64, ..state }
    }
}

/// Whether a step pays the redeemed liquidity out: the last step of a round
/// does, and so does a first step that finds nothing to free.
pub open spec fn redeem_pays(pool: &PolePortPool, amount_to_unroll: u64) -> bool {
    pool.port_state.leverage + 1 == pool.port_config.port_iterate || (pool.port_state.leverage == 0
        && amount_to_unroll == 0)
}

/// What a step that has not paid yet pays out: the redeemed liquidity, split
/// into fee and rest, if this is the step that pays.
pub open spec fn redeem_payout(pool: &PolePortPool, opened: RedeemOpening) -> Result<
    Option<Payout>,
    PoleError,
> {
    if redeem_pays(pool, opened.amount_to_unroll) {
        match spec_payout_of(pool.generic_config.withdraw_fee_bips, opened.redeem_amount) {
            Err(e) => Err(e),
            Ok(payout) => Ok(Some(payout)),
        }
    } else {
        Ok(None)
    }
}

/// What a step works with: on the first step of a round what the step itself
/// records, afterwards what the first step recorded.
pub open spec fn redeem_figures(pool: &PolePortPool, accounts: &RedeemLiquidity, amount: u64)
    -> Result<RedeemOpening, PoleError> {
    if pool.port_state.leverage == 0 {
        redeem_opening(pool, accounts, amount)
    } else {
        Ok(
            (RedeemOpening {
                redeem_amount: pool.port_state.redeem_amount,
                amount_to_unroll: pool.port_state.amount_to_unroll,
                lp_amount: pool.basic_state.lp_amount,
            }),
        )
    }
}

/// The pool after a step that has not paid yet, before the step is counted,
/// and what the step has to do.
pub open spec fn redeem_worked(
    pool: &PolePortPool,
    accounts: &RedeemLiquidity,
    amount: u64,
    opened: RedeemOpening,
    unroll: Option<UnrollPlan>,
    payout: Option<Payout>,
) -> (PolePortPool, RedeemStep) {
    let state = pool.port_state;
    (
        PolePortPool {
            basic_state: BasicState { lp_amount: opened.lp_amount },
            port_state: PortState {
                init_port_liquidity: if state.leverage == 0 {
                    accounts.port_accounts.position.liquidity
                } else {
                    state.init_port_liquidity
                },
                redeem_amount: opened.redeem_amount,
                amount_to_unroll: opened.amount_to_unroll,
                is_redeemed: if payout is Some {
                    1
                } else {
                    state.is_redeemed
                },
                ..state
            },
            ..*pool
        },
        RedeemStep {
            burn: if state.leverage == 0 {
                Some(amount)
            } else {
                None
            },
            unroll,
            payout,
            event: if payout is Some {
                Some(
                    DidRedeem {
                        liquidity_amount_redeemed: opened.redeem_amount,
                        lp_amount_burned: amount,
                    },
                )
            } else {
                None
            },
        },
    )
}

/// The pool after a redeem step, and what the step has to do. The pool's
/// invariants are checked first, then the accounts. Once the liquidity has
/// been paid out, the remaining steps of the round only count.
pub open spec fn redeem_outcome(pool: &PolePortPool, accounts: &RedeemLiquidity, amount: u64)
    -> Result<(PolePortPool, RedeemStep), PoleError> {
    let iterate = pool.port_config.port_iterate;
    match admission(pool, accounts.rejection(pool, amount)) {
        Some(e) => Err(e),
        None => if pool.port_state.is_redeemed == 1 {
            Ok(
                (
                    PolePortPool { port_state: counted(pool.port_state, iterate), ..*pool },
                    RedeemStep { burn: None, unroll: None, payout: None, event: None },
                ),
            )
        } else {
            match redeem_figures(pool, accounts, amount) {
                Err(e) => Err(e),
                Ok(opened) => match redeem_unroll(pool, accounts, opened.amount_to_unroll) {
                    Err(e) => Err(e),
                    Ok(unroll) => match redeem_payout(pool, opened) {
                        Err(e) => Err(e),
                        Ok(payout) => {
                            let (worked, step) = redeem_worked(
                                pool,
                                accounts,
                                amount,
                                opened,
                                unroll,
                                payout,
                            );
                            Ok(
                                (
                                    PolePortPool {
                                        port_state: counted(worked.port_state, iterate),
                                        ..worked
                                    },
                                    step,
                                ),
                            )
                        },
                    },
                },
            }
        },
    }
}

/// Opens a redeem round: prices the shares and finds what has to be freed.
fn open_redemption(pool: &PolePortPool, accounts: &RedeemLiquidity, amount: u64) -> (r: Result<
    RedeemOpening,
    PoleError,
>)
    ensures
        r == redeem_opening(pool, accounts, amount),
{
    let idle = accounts.pole_liquidity_accounts.pole_liquidity;
    let total = accounts.port_accounts.position.liquidity.try_add(Decimal::from_u64(idle))?;
    let rate = pool.basic_state.exchange_rate(total)?;
    let redeem_amount = rate.lp_to_liquidity(amount)?;
    let lp_amount: u64 = match pool.basic_state.lp_amount.checked_sub(amount) {
        Some(v) => v,
        None => { return Err(PoleError::MathOverflow); },
    };
    Ok(
        RedeemOpening {
            redeem_amount,
            amount_to_unroll: redeem_amount.saturating_sub(idle),
            lp_amount,
        },
    )
}

/// Plans what a step that still has to pay does with the lending protocol.
fn plan_unroll(pool: &PolePortPool, accounts: &RedeemLiquidity, amount_to_unroll: u64) -> (r:
    Result<Option<UnrollPlan>, PoleError>)
    requires
        pool_valid(pool),
    ensures
        r == redeem_unroll(pool, accounts, amount_to_unroll),
{
    let position = &accounts.port_accounts.position;
    if pool.port_state.leverage == 0 && amount_to_unroll == 0 {
        return Ok(None);
    }
    let margin: u8 = pool.port_config.port_reserve_percentage as u8;
    if position.loan_to_value < margin {
        return Err(PoleError::MathOverflow);
    }
    let repay_ratio = Decimal::from_percent(position.loan_to_value - margin);
    proof {
        lemma_decimal_from_value(repay_ratio);
    }
    let plan = port_lending_unroll(
        &position.exchange_rate,
        repay_ratio,
        pool.port_config.port_iterate as u8,
        pool.port_state.leverage as u8,
        amount_to_unroll,
    )?;
    Ok(Some(plan))
}

/// Counts a step, and returns the pool to rest if it completed the round.
fn count_step(pool: &mut PolePortPool)
    requires
        old(pool).port_state.leverage < u64::MAX,
    ensures
        *final(pool) == (PolePortPool {
            port_state: counted(old(pool).port_state, old(pool).port_config.port_iterate),
            ..*old(pool)
        }),
{
    pool.port_state.leverage = pool.port_state.leverage + 1;
    if pool.port_state.leverage == pool.port_config.port_iterate {
        pool.port_state.reset();
    }
}

/// Takes one step of a redeem round and says what the step has to do with
/// the outside world.
///
/// On success the pool has counted the step: the count of steps taken goes up
/// by one, and returns to zero with the step that completes the round. On
/// failure the pool is as it was.
pub fn redeem_liquidity(pool: &mut PolePortPool, accounts: &RedeemLiquidity, amount: u64) -> (r:
    Result<RedeemStep, PoleError>)
    ensures
        match redeem_outcome(old(pool), accounts, amount) {
            Ok((after, step)) => r == Ok::<RedeemStep, PoleError>(step) && *final(pool) == after,
            Err(e) => r == Err::<RedeemStep, PoleError>(e) && *final(pool) == *old(pool),
        },
        pool_valid(old(pool)) ==> final(pool).port_state.leverage
            < final(pool).port_config.port_iterate,
        r is Ok ==> {
            &&& pool_valid(old(pool))
            &&& final(pool).port_config == old(pool).port_config
            &&& final(pool).port_state.leverage < final(pool).port_config.port_iterate
            &&& final(pool).port_state.leverage == if old(pool).port_state.leverage + 1 == old(
                pool,
            ).port_config.port_iterate {
                0
            } else {
                old(pool).port_state.leverage + 1
            }
            &&& !(final(pool).port_state.deposit_verified == 1
                && final(pool).port_state.redeem_verified == 1)
        },
{
    valid_pole_pool(pool)?;
    accounts.check(pool, amount)?;
    let mut next = *pool;
    let mut step = RedeemStep { burn: None, unroll: None, payout: None, event: None };
    if pool.port_state.is_redeemed != 1 {
        if pool.port_state.leverage == 0 {
            let opened = open_redemption(pool, accounts, amount)?;
            next.port_state.init_port_liquidity = accounts.port_accounts.position.liquidity;
            next.port_state.redeem_amount = opened.redeem_amount;
            next.port_state.amount_to_unroll = opened.amount_to_unroll;
            next.basic_state.lp_amount = opened.lp_amount;
            step.burn = Some(amount);
        }
        step.unroll = plan_unroll(pool, accounts, next.port_state.amount_to_unroll)?;
        if pool.port_state.leverage + 1 == pool.port_config.port_iterate || (
        pool.port_state.leverage == 0 && next.port_state.amount_to_unroll == 0) {
            let payout = payout_of(
                pool.generic_config.withdraw_fee_bips,
                next.port_state.redeem_amount,
            )?;
            next.port_state.is_redeemed = 1;
            step.payout = Some(payout);
            step.event = Some(
                DidRedeem {
                    liquidity_amount_redeemed: next.port_state.redeem_amount,
                    lp_amount_burned: amount,
                },
            );
        }
    }
    count_step(&mut next);
    *pool = next;
    Ok(step)
}

/// The count of steps through a redeem round. Every successful step starts
/// from a count below the number of steps `N` of a round and ends on one: the
/// count goes up by exactly one, and returns to zero exactly when it would
/// reach `N`; the pool is then at rest, with nothing left to free. The deposit
/// and the redeem flag are not both set afterwards.
pub proof fn lemma_redeem_counts_steps(pool: PolePortPool, accounts: RedeemLiquidity, amount: u64)
    ensures
        redeem_outcome(&pool, &accounts, amount) matches Ok((next, step)) ==> {
            &&& pool.port_state.leverage < pool.port_config.port_iterate
            &&& next.port_config.port_iterate == pool.port_config.port_iterate
            &&& next.port_state.leverage < next.port_config.port_iterate
            &&& next.port_state.leverage == if pool.port_state.leverage + 1
                == pool.port_config.port_iterate {
                0
            } else {
                pool.port_state.leverage + 1
            }
            &&& pool.port_state.leverage + 1 == pool.port_config.port_iterate
                ==> next.port_state == PortState::idle(pool.port_state.last_sold_slot)
            &&& !(next.port_state.deposit_verified == 1 && next.port_state.redeem_verified == 1)
        },
{
}

/// A redemption is paid out once in its round: a step pays only while the
/// round has not paid, and the last step of a round that has not paid does.
pub proof fn lemma_redeem_pays_once(pool: PolePortPool, accounts: RedeemLiquidity, amount: u64)
    ensures
        redeem_outcome(&pool, &accounts, amount) matches Ok((next, step)) ==> {
            &&& step.payout is Some ==> pool.port_state.is_redeemed == 0
            &&& step.payout is Some <==> step.event is Some
            &&& pool.port_state.is_redeemed == 0 && pool.port_state.leverage + 1
                == pool.port_config.port_iterate ==> step.payout is Some
            &&& step.payout matches Some(p) ==> p.fee + p.to_user == (if pool.port_state.leverage
                == 0 {
                step.event->Some_0.liquidity_amount_redeemed
            } else {
                pool.port_state.redeem_amount
            })
        },
{
}

/// A redemption never pays more than was redeemed. At the price at which the
/// shares were redeemed, the liquidity to pay out buys no more shares than
/// were burned; what has to be freed is part of it; and the shares burned
/// leave the shares outstanding.
pub proof fn lemma_redeem_never_over_pays(
    pool: PolePortPool,
    accounts: RedeemLiquidity,
    amount: u64,
)
    ensures
        redeem_opening(&pool, &accounts, amount) matches Ok(opened) ==> {
            let total = accounts.port_accounts.position.liquidity@
                + accounts.pole_liquidity_accounts.pole_liquidity * WAD;
            let rate = rate_of(pool.basic_state.lp_amount as nat, total as nat);
            &&& crate::states::liquidity_to_lp_at(rate, opened.redeem_amount) matches Ok(shares)
                && shares <= amount
            &&& opened.amount_to_unroll <= opened.redeem_amount
            &&& opened.amount_to_unroll + accounts.pole_liquidity_accounts.pole_liquidity
                >= opened.redeem_amount
            &&& opened.lp_amount + amount == pool.basic_state.lp_amount
        },
{
    if let Ok(opened) = redeem_opening(&pool, &accounts, amount) {
        let total = accounts.port_accounts.position.liquidity@
            + accounts.pole_liquidity_accounts.pole_liquidity * WAD;
        let rate = rate_of(pool.basic_state.lp_amount as nat, total as nat);
        crate::states::lemma_shares_for_liquidity_for(rate, amount as nat);
        assert(rate * opened.redeem_amount <= amount * 1_000_000_000_000_000_000);
    }
}

/// The count of steps stays below the number of steps of a round after every
/// redeem step on a pool that the validator accepts, whether the step
/// succeeds or is refused.
pub proof fn lemma_redeem_keeps_count_below(
    pool: PolePortPool,
    accounts: RedeemLiquidity,
    amount: u64,
)
    requires
        pool_valid(&pool),
    ensures
        ({
            let left = match redeem_outcome(&pool, &accounts, amount) {
                Ok((next, _)) => next,
                Err(_) => pool,
            };
            left.port_state.leverage < left.port_config.port_iterate
        }),
{
}

/// One redeem step as it is handed to the pool: the accounts and the amount.
pub struct RedeemCall {
    pub accounts: RedeemLiquidity,
    pub amount: u64,
}

/// The pool after a run of redeem steps, each applied to what the one before
/// it left; the first failure ends the run.
pub open spec fn redeem_run(pool: PolePortPool, calls: Seq<RedeemCall>) -> Result<
    PolePortPool,
    PoleError,
>
    decreases calls.len(),
{
    if calls.len() == 0 {
        Ok(pool)
    } else {
        match redeem_run(pool, calls.drop_last()) {
            Err(e) => Err(e),
            Ok(before) => match redeem_outcome(
                &before,
                &calls.last().accounts,
                calls.last().amount,
            ) {
                Err(e) => Err(e),
                Ok((next, _)) => Ok(next),
            },
        }
    }
}

/// A round takes all its steps. From a pool between rounds, a run of
/// successful redeem steps leaves the count of steps at the length of the run
/// modulo the number of steps `N` of a round: the count is back at zero after
/// `N` steps, and not before.
pub proof fn lemma_redeem_round_takes_all_steps(pool: PolePortPool, calls: Seq<RedeemCall>)
    requires
        pool.port_state.leverage == 0,
        pool.port_config.port_iterate > 0,
    ensures
        redeem_run(pool, calls) matches Ok(last) ==> {
            &&& last.port_config.port_iterate == pool.port_config.port_iterate
            &&& last.port_state.leverage == calls.len() % (pool.port_config.port_iterate as nat)
        },
    decreases calls.len(),
{
    let n = pool.port_config.port_iterate as int;
    if calls.len() == 0 {
        assert(0int % n == 0) by (nonlinear_arith)
            requires
                n > 0,
        ;
    } else {
        lemma_redeem_round_takes_all_steps(pool, calls.drop_last());
        if let Ok(before) = redeem_run(pool, calls.drop_last()) {
            lemma_redeem_counts_steps(before, calls.last().accounts, calls.last().amount);
            let k = calls.len() - 1;
            crate::states::lemma_count_wraps(k, n);
        }
    }
}

} // verus!
