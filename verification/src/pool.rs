//! Creation and administration of a pool, the opening of rounds, and the
//! per-user balance records.

use vstd::prelude::*;
use crate::address::Address;
use crate::batch::{batch_verdict, verify_batch, BatchKind, BatchOperation};
use crate::error::PoleError;
use crate::helpers::{pool_valid, valid_pole_pool};
use crate::instructions::{
    check_balance_owner,
    check_owner,
    AddBalance,
    ChangeFeeReceiver,
    ChangeLiquidityCap,
    ChangeMinDeposit,
    ChangeOwner,
    ChangeWithdrawFee,
    CreatePool,
    CreateUserBalance,
    InitParams,
    InitPortAccounts,
    VerifyDeposit,
    VerifyRedeem,
    WithdrawBalance,
    MIN_LIQUIDITY_CAP,
};
use crate::states::{
    BasicState,
    GenericPoolConfig,
    PolePortPool,
    PortConfig,
    PortState,
    RoundStage,
    SerumConfig,
    UserBalance,
};

verus! {

/// Whether a pool may be created with these arguments.
pub open spec fn init_params_accepted(init_params: &InitParams) -> bool {
    &&& 1 <= init_params.port_iterate < 10
    &&& init_params.liquidity_cap >= MIN_LIQUIDITY_CAP
    &&& 1 <= init_params.port_reserve_percentage <= 20
    &&& init_params.port_min_deposit > 50
}

/// The pool that a creation with these accounts and arguments yields.
pub open spec fn created_pool(accounts: &CreatePool, authority_bump: u8, init_params: &InitParams)
    -> PolePortPool {
    PolePortPool {
        generic_config: GenericPoolConfig {
            bump: authority_bump as u64,
            liquidity_cap: init_params.liquidity_cap,
            withdraw_fee_bips: init_params.withdraw_fee_bips as u64,
            fee_receiver: accounts.fee_receiver,
            owner: accounts.user,
            lp_mint: accounts.lp_mint,
            liquidity_supply: accounts.liquidity_supply,
            token_program: accounts.token_program,
        },
        port_config: PortConfig {
            min_deposit: init_params.port_min_deposit,
            obligation: Address::unset(),
            reserve: init_params.reserve,
            stake_account: Address::unset(),
            port_lending_program: Address::unset(),
            port_staking_program: Address::unset(),
            port_token_mint: accounts.port_mint,
            port_lp_supply: accounts.port_lp_supply,
            port_supply: accounts.port_supply,
            port_iterate: init_params.port_iterate as u64,
            port_reserve_percentage: init_params.port_reserve_percentage as u64,
        },
        serum_config: SerumConfig {
            dex_program: accounts.dex_program,
            swap_program: init_params.swap_program,
            port_open_orders: accounts.port_open_orders,
        },
        basic_state: BasicState { lp_amount: 0 },
        port_state: PortState::idle(0),
    }
}

/// Every pool that creation yields passes the validator, and is between
/// rounds with no lending account bound.
pub proof fn lemma_created_pool_is_valid(
    accounts: CreatePool,
    authority_bump: u8,
    init_params: InitParams,
)
    requires
        init_params_accepted(&init_params),
    ensures
        pool_valid(&created_pool(&accounts, authority_bump, &init_params)),
        created_pool(&accounts, authority_bump, &init_params).port_config.validate(),
        created_pool(&accounts, authority_bump, &init_params).port_state.stage() == Some(
            RoundStage::Idle,
        ),
        !lending_bound(&created_pool(&accounts, authority_bump, &init_params)),
{
}

/// Creates a pool: owned by the creating user, without shares, between
/// rounds, and with no lending account bound yet. Arguments out of range are
/// refused as an invalid configuration.
pub fn create_pool(accounts: &CreatePool, authority_bump: u8, init_params: &InitParams) -> (r:
    Result<PolePortPool, PoleError>)
    ensures
        r == if init_params_accepted(init_params) {
            Ok::<PolePortPool, PoleError>(created_pool(accounts, authority_bump, init_params))
        } else {
            Err::<PolePortPool, PoleError>(PoleError::InvalidPoolConfig)
        },
{
    if !(init_params.port_iterate < 10 && init_params.port_iterate >= 1) {
        return Err(PoleError::InvalidPoolConfig);
    }
    if !(init_params.liquidity_cap >= MIN_LIQUIDITY_CAP) {
        return Err(PoleError::InvalidPoolConfig);
    }
    if !(init_params.port_reserve_percentage <= 20 && init_params.port_reserve_percentage >= 1) {
        return Err(PoleError::InvalidPoolConfig);
    }
    if !(init_params.port_min_deposit > 50) {
        return Err(PoleError::InvalidPoolConfig);
    }
    Ok(
        PolePortPool {
            generic_config: GenericPoolConfig {
                bump: authority_bump as u64,
                liquidity_cap: init_params.liquidity_cap,
                withdraw_fee_bips: init_params.withdraw_fee_bips as u64,
                fee_receiver: accounts.fee_receiver,
                owner: accounts.user,
                lp_mint: accounts.lp_mint,
                liquidity_supply: accounts.liquidity_supply,
                token_program: accounts.token_program,
            },
            port_config: PortConfig {
                min_deposit: init_params.port_min_deposit,
                obligation: Address::unset(),
                reserve: init_params.reserve,
                stake_account: Address::unset(),
                port_lending_program: Address::unset(),
                port_staking_program: Address::unset(),
                port_token_mint: accounts.port_mint,
                port_lp_supply: accounts.port_lp_supply,
                port_supply: accounts.port_supply,
                port_iterate: init_params.port_iterate as u64,
                port_reserve_percentage: init_params.port_reserve_percentage as u64,
            },
            serum_config: SerumConfig {
                dex_program: accounts.dex_program,
                swap_program: init_params.swap_program,
                port_open_orders: accounts.port_open_orders,
            },
            basic_state: BasicState::default(),
            port_state: PortState::default(),
        },
    )
}

/// What an operation that only the owner may ask for, and that sets `after`
/// in place of `pool`, returns and leaves behind: the pool's invariants are
/// checked first, then the owner.
pub open spec fn owner_operation(pool: &PolePortPool, signer: Address, after: PolePortPool) -> (
    Result<(), PoleError>,
    PolePortPool,
) {
    if !pool_valid(pool) {
        (Err(PoleError::InvalidPoolState), *pool)
    } else if pool.generic_config.owner != signer {
        (Err(PoleError::InvalidOwner), *pool)
    } else {
        (Ok(()), after)
    }
}

/// Whether lending or staking accounts have been bound to the pool.
pub open spec fn lending_bound(pool: &PolePortPool) -> bool {
    ||| pool.port_config.obligation != Address::unset()
    ||| pool.port_config.stake_account != Address::unset()
    ||| pool.port_config.port_lending_program != Address::unset()
    ||| pool.port_config.port_staking_program != Address::unset()
}

/// What a binding returns and leaves behind. The pool's invariants are checked
/// first, then the owner; a pool is bound once, and a pool that is bound
/// already refuses the binding as an invalid configuration.
pub open spec fn binding_outcome(pool: &PolePortPool, accounts: &InitPortAccounts) -> (
    Result<(), PoleError>,
    PolePortPool,
) {
    if !pool_valid(pool) {
        (Err(PoleError::InvalidPoolState), *pool)
    } else if pool.generic_config.owner != accounts.user {
        (Err(PoleError::InvalidOwner), *pool)
    } else if lending_bound(pool) {
        (Err(PoleError::InvalidPoolConfig), *pool)
    } else {
        (
            Ok(()),
            PolePortPool {
                port_config: PortConfig {
                    obligation: accounts.obligation,
                    stake_account: accounts.stake_account,
                    port_lending_program: accounts.port_lending_program,
                    port_staking_program: accounts.port_staking_program,
                    ..pool.port_config
                },
                ..*pool
            },
        )
    }
}

/// Binds the lending and staking accounts to the pool. Only the owner may,
/// and only once.
pub fn init_port_accounts(pool: &mut PolePortPool, accounts: &InitPortAccounts) -> (r: Result<
    (),
    PoleError,
>)
    ensures
        (r, *final(pool)) == binding_outcome(old(pool), accounts),
{
    valid_pole_pool(pool)?;
    check_owner(pool, &accounts.user)?;
    let unset = Address::unset();
    if !pool.port_config.obligation.same(&unset) || !pool.port_config.stake_account.same(&unset)
        || !pool.port_config.port_lending_program.same(&unset)
        || !pool.port_config.port_staking_program.same(&unset) {
        return Err(PoleError::InvalidPoolConfig);
    }
    pool.port_config.obligation = accounts.obligation;
    pool.port_config.stake_account = accounts.stake_account;
    pool.port_config.port_lending_program = accounts.port_lending_program;
    pool.port_config.port_staking_program = accounts.port_staking_program;
    Ok(())
}

/// Hands the pool to a new owner. Only the owner may.
pub fn change_owner(pool: &mut PolePortPool, accounts: &ChangeOwner, owner: Address) -> (r: Result<
    (),
    PoleError,
>)
    ensures
        (r, *final(pool)) == owner_operation(
            old(pool),
            accounts.owner,
            (PolePortPool {
                generic_config: GenericPoolConfig { owner, ..old(pool).generic_config },
                ..*old(pool)
            }),
        ),
{
    valid_pole_pool(pool)?;
    check_owner(pool, &accounts.owner)?;
    pool.generic_config.owner = owner;
    Ok(())
}

/// Names a new receiver of the withdrawal fees. Only the owner may.
pub fn change_fee_receiver(
    pool: &mut PolePortPool,
    accounts: &ChangeFeeReceiver,
    new_fee_receiver: Address,
) -> (r: Result<(), PoleError>)
    ensures
        (r, *final(pool)) == owner_operation(
            old(pool),
            accounts.owner,
            (PolePortPool {
                generic_config: GenericPoolConfig {
                    fee_receiver: new_fee_receiver,
                    ..old(pool).generic_config
                },
                ..*old(pool)
            }),
        ),
{
    valid_pole_pool(pool)?;
    check_owner(pool, &accounts.owner)?;
    pool.generic_config.fee_receiver = new_fee_receiver;
    Ok(())
}

/// Sets the liquidity cap. Only the owner may, and a cap below the least
/// accepted one is refused as an invalid configuration.
pub fn change_liquidity_cap(pool: &mut PolePortPool, accounts: &ChangeLiquidityCap, cap: u64) -> (r:
    Result<(), PoleError>)
    ensures
        (r, *final(pool)) == if pool_valid(old(pool)) && old(pool).generic_config.owner
            == accounts.owner && cap < MIN_LIQUIDITY_CAP {
            (Err::<(), PoleError>(PoleError::InvalidPoolConfig), *old(pool))
        } else {
            owner_operation(
                old(pool),
                accounts.owner,
                (PolePortPool {
                    generic_config: GenericPoolConfig {
                        liquidity_cap: cap,
                        ..old(pool).generic_config
                    },
                    ..*old(pool)
                }),
            )
        },
{
    valid_pole_pool(pool)?;
    check_owner(pool, &accounts.owner)?;
    if cap < MIN_LIQUIDITY_CAP {
        return Err(PoleError::InvalidPoolConfig);
    }
    pool.generic_config.liquidity_cap = cap;
    Ok(())
}

/// Sets the withdrawal fee, in basis points. Only the owner may.
pub fn change_withdraw_fee(pool: &mut PolePortPool, accounts: &ChangeWithdrawFee, bips: u8) -> (r:
    Result<(), PoleError>)
    ensures
        (r, *final(pool)) == owner_operation(
            old(pool),
            accounts.owner,
            (PolePortPool {
                generic_config: GenericPoolConfig {
                    withdraw_fee_bips: bips as u64,
                    ..old(pool).generic_config
                },
                ..*old(pool)
            }),
        ),
{
    valid_pole_pool(pool)?;
    check_owner(pool, &accounts.owner)?;
    pool.generic_config.withdraw_fee_bips = bips as u64;
    Ok(())
}

/// Sets the minimum deposit. Only the owner may.
pub fn change_min_deposit(pool: &mut PolePortPool, accounts: &ChangeMinDeposit, min_deposit: u64)
    -> (r: Result<(), PoleError>)
    ensures
        (r, *final(pool)) == owner_operation(
            old(pool),
            accounts.owner,
            (PolePortPool {
                port_config: PortConfig { min_deposit, ..old(pool).port_config },
                ..*old(pool)
            }),
        ),
{
    valid_pole_pool(pool)?;
    check_owner(pool, &accounts.owner)?;
    pool.port_config.min_deposit = min_deposit;
    Ok(())
}

/// The wallet that a verdict approves: the one the batch names, or the unset
/// address when the batch had nothing to name.
pub open spec fn approved_wallet(verdict: Option<Address>) -> Address {
    match verdict {
        Some(wallet) => wallet,
        None => Address::unset(),
    }
}

/// The pool with a round of `kind` opened for the wallet of `verdict`.
pub open spec fn round_opened(pool: &PolePortPool, kind: BatchKind, verdict: Option<Address>)
    -> PolePortPool {
    PolePortPool {
        port_state: match kind {
            BatchKind::Deposit => PortState {
                deposit_verified: 1,
                approved_wallet: approved_wallet(verdict),
                ..pool.port_state
            },
            BatchKind::Redeem => PortState {
                redeem_verified: 1,
                approved_wallet: approved_wallet(verdict),
                ..pool.port_state
            },
        },
        ..*pool
    }
}

/// What the opening of a round of `kind` returns: the pool with the round
/// opened, or the reason for which it is refused. The pool's invariants are
/// checked first; a round is only opened between rounds, so a pool in which a
/// round of either kind is open refuses the opening as an invalid
/// transaction; then the batch `ops` is verified.
pub open spec fn opening_outcome(pool: &PolePortPool, kind: BatchKind, ops: Seq<BatchOperation>)
    -> Result<PolePortPool, PoleError> {
    if !pool_valid(pool) {
        Err(PoleError::InvalidPoolState)
    } else if pool.port_state.stage() != Some(RoundStage::Idle) {
        Err(PoleError::InvalidTransaction)
    } else {
        match batch_verdict(ops, kind, pool.port_config.port_iterate as nat) {
            Err(e) => Err(e),
            Ok(verdict) => Ok(round_opened(pool, kind, verdict)),
        }
    }
}

/// At most one kind of round is open. The opening of a round succeeds only
/// on a pool between rounds and leaves exactly the flag of its kind set, with
/// no step taken; and a pool whose two flags are not both set before the call
/// has them not both set after it, whether the opening succeeds or is
/// refused.
pub proof fn lemma_opening_keeps_one_round(
    pool: PolePortPool,
    kind: BatchKind,
    ops: Seq<BatchOperation>,
)
    ensures
        opening_outcome(&pool, kind, ops) matches Ok(next) ==> {
            &&& pool.port_state.stage() == Some(RoundStage::Idle)
            &&& next.port_state.stage() == Some(
                match kind {
                    BatchKind::Deposit => RoundStage::Building(0),
                    BatchKind::Redeem => RoundStage::Unwinding(0),
                },
            )
            &&& next.port_state.leverage < next.port_config.port_iterate
        },
        !(pool.port_state.deposit_verified == 1 && pool.port_state.redeem_verified == 1) ==> {
            let after = match opening_outcome(&pool, kind, ops) {
                Ok(next) => next,
                Err(_) => pool,
            };
            !(after.port_state.deposit_verified == 1 && after.port_state.redeem_verified == 1)
        },
{
}

/// Checks the pool and the batch, and opens a round of `kind`.
fn open_round(pool: &mut PolePortPool, kind: BatchKind, ops: &Vec<BatchOperation>) -> (r: Result<
    (),
    PoleError,
>)
    ensures
        match opening_outcome(old(pool), kind, ops@) {
            Ok(next) => r is Ok && *final(pool) == next,
            Err(e) => r == Err::<(), PoleError>(e) && *final(pool) == *old(pool),
        },
{
    valid_pole_pool(pool)?;
    match pool.port_state.stage() {
        Some(RoundStage::Idle) => {},
        _ => { return Err(PoleError::InvalidTransaction); },
    }
    let verdict = verify_batch(ops, kind, pool.port_config.port_iterate)?;
    match kind {
        BatchKind::Deposit => { pool.port_state.deposit_verified = 1; },
        BatchKind::Redeem => { pool.port_state.redeem_verified = 1; },
    }
    pool.port_state.approved_wallet = match verdict {
        Some(wallet) => wallet,
        None => Address::unset(),
    };
    Ok(())
}

/// Opens a deposit round. The pool has to be valid and between rounds, and
/// the batch has to hold exactly as many deposit operations as the pool takes
/// steps, well shaped; the round is then marked verified and tied to the
/// wallet that they name. A refusal leaves the pool as it was.
pub fn verify_deposit(pool: &mut PolePortPool, accounts: &VerifyDeposit) -> (r: Result<
    (),
    PoleError,
>)
    ensures
        match opening_outcome(old(pool), BatchKind::Deposit, accounts.transaction_info@) {
            Ok(next) => r is Ok && *final(pool) == next,
            Err(e) => r == Err::<(), PoleError>(e) && *final(pool) == *old(pool),
        },
        r is Ok ==> final(pool).port_state.deposit_verified == 1
            && final(pool).port_state.redeem_verified == 0,
        !(old(pool).port_state.deposit_verified == 1 && old(pool).port_state.redeem_verified == 1)
            ==> !(final(pool).port_state.deposit_verified == 1
            && final(pool).port_state.redeem_verified == 1),
{
    open_round(pool, BatchKind::Deposit, &accounts.transaction_info)
}

/// Opens a redeem round. The pool has to be valid and between rounds, and the
/// batch has to hold exactly as many redeem operations as the pool takes
/// steps, well shaped; the round is then marked verified and tied to the
/// wallet that they name. A refusal leaves the pool as it was.
pub fn verify_redeem(pool: &mut PolePortPool, accounts: &VerifyRedeem) -> (r: Result<(), PoleError>)
    ensures
        match opening_outcome(old(pool), BatchKind::Redeem, accounts.transaction_info@) {
            Ok(next) => r is Ok && *final(pool) == next,
            Err(e) => r == Err::<(), PoleError>(e) && *final(pool) == *old(pool),
        },
        r is Ok ==> final(pool).port_state.redeem_verified == 1
            && final(pool).port_state.deposit_verified == 0,
        !(old(pool).port_state.deposit_verified == 1 && old(pool).port_state.redeem_verified == 1)
            ==> !(final(pool).port_state.deposit_verified == 1
            && final(pool).port_state.redeem_verified == 1),
{
    open_round(pool, BatchKind::Redeem, &accounts.transaction_info)
}

/// Creates the balance record of a user: empty, never updated.
pub fn create_user_balance(accounts: &CreateUserBalance) -> (r: UserBalance)
    ensures
        r == (UserBalance { balance: 0, last_update: 0, user: accounts.user }),
{
    UserBalance { balance: 0, last_update: 0, user: accounts.user }
}

/// Adds `amount` to a balance record and stamps it with the current slot.
/// Only the record's user may; a sum that leaves 64 bits is refused. A
/// refusal leaves the record as it was.
pub fn add_balance(user_balance: &mut UserBalance, accounts: &AddBalance, amount: u64) -> (r:
    Result<(), PoleError>)
    ensures
        (r, *final(user_balance)) == if old(user_balance).user != accounts.user {
            (Err::<(), PoleError>(PoleError::ConstraintHasOne), *old(user_balance))
        } else if old(user_balance).balance + amount > u64::MAX {
            (Err::<(), PoleError>(PoleError::MathOverflow), *old(user_balance))
        } else {
            (
                Ok::<(), PoleError>(()),
                UserBalance {
                    balance: (old(user_balance).balance + amount) as u64,
                    last_update: accounts.clock_slot,
                    user: old(user_balance).user,
                },
            )
        },
{
    check_balance_owner(user_balance, &accounts.user)?;
    let sum: u64 = match user_balance.balance.checked_add(amount) {
        Some(v) => v,
        None => { return Err(PoleError::MathOverflow); },
    };
    user_balance.balance = sum;
    user_balance.last_update = accounts.clock_slot;
    Ok(())
}

/// Takes `amount` from a balance record and stamps it with the current slot.
/// Only the record's user may; an amount above the balance is refused as not
/// enough balance. A refusal leaves the record as it was.
pub fn withdraw_balance(user_balance: &mut UserBalance, accounts: &WithdrawBalance, amount: u64)
    -> (r: Result<(), PoleError>)
    ensures
        (r, *final(user_balance)) == if old(user_balance).user != accounts.user {
            (Err::<(), PoleError>(PoleError::ConstraintHasOne), *old(user_balance))
        } else if amount > old(user_balance).balance {
            (Err::<(), PoleError>(PoleError::NotEnoughBalance), *old(user_balance))
        } else {
            (
                Ok::<(), PoleError>(()),
                UserBalance {
                    balance: (old(user_balance).balance - amount) as u64,
                    last_update: accounts.clock_slot,
                    user: old(user_balance).user,
                },
            )
        },
        amount > old(user_balance).balance ==> r is Err && final(user_balance).balance == old(
            user_balance,
        ).balance,
{
    check_balance_owner(user_balance, &accounts.user)?;
    if user_balance.balance < amount {
        return Err(PoleError::NotEnoughBalance);
    }
    let rest: u64 = match user_balance.balance.checked_sub(amount) {
        Some(v) => v,
        None => { return Err(PoleError::MathOverflow); },
    };
    user_balance.balance = rest;
    user_balance.last_update = accounts.clock_slot;
    Ok(())
}

} // verus!
