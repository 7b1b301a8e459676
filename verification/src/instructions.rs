//! Arguments of the pool's operations, and what each operation reads of the
//! accounts it is handed: their addresses and the few values that the rules
//! look at. Each kind of operation states here which accounts it accepts.

use vstd::prelude::*;
use crate::address::Address;
use crate::batch::BatchOperation;
use crate::error::PoleError;
use crate::fixed::Decimal;
use crate::lending::CollateralExchangeRate;
use crate::states::{PolePortPool, UserBalance};

verus! {

/// Most slots that may have passed since the last harvest.
pub const STALE_SLOT: u64 = 50;

/// Least liquidity cap that a pool accepts.
pub const MIN_LIQUIDITY_CAP: u64 = 1_000_000;

/// Arguments with which a pool is created.
#[derive(Clone, Copy, Debug, PartialEq, Eq)]
pub struct InitParams {
    pub liquidity_cap: u64,
    pub withdraw_fee_bips: u8,
    pub port_iterate: u8,
    pub port_reserve_percentage: u8,
    pub port_min_deposit: u64,
    pub swap_program: Address,
    pub reserve: Address,
}

/// Bumps of the accounts of a staking pool.
#[derive(Clone, Copy, Debug, PartialEq, Eq, Structural)]
pub struct StakingBumps {
    pub pool_bump: u8,
    pub authority_bump: u8,
    pub port_pool_bump: u8,
    pub lp_bump: u8,
    pub reward_token_pool_bump: u8,
}

/// Accounts of the creation of a pool.
#[derive(Clone, Copy, Debug, PartialEq, Eq)]
pub struct CreatePool {
    pub lp_mint: Address,
    pub liquidity_supply: Address,
    pub port_lp_supply: Address,
    pub port_supply: Address,
    pub fee_receiver: Address,
    pub port_open_orders: Address,
    pub port_mint: Address,
    pub user: Address,
    pub token_program: Address,
    pub dex_program: Address,
}

/// Accounts of the one-time binding of the lending and staking accounts.
#[derive(Clone, Copy, Debug, PartialEq, Eq)]
pub struct InitPortAccounts {
    pub obligation: Address,
    pub stake_account: Address,
    pub user: Address,
    pub port_lending_program: Address,
    pub port_staking_program: Address,
}

/// Accounts of the verification of a deposit batch: the operations that
/// follow the verification in the enclosing transaction.
#[derive(Clone, Debug, PartialEq, Eq)]
pub struct VerifyDeposit {
    pub transaction_info: Vec<BatchOperation>,
}

/// Accounts of the verification of a redeem batch: the operations that follow
/// the verification in the enclosing transaction.
#[derive(Clone, Debug, PartialEq, Eq)]
pub struct VerifyRedeem {
    pub transaction_info: Vec<BatchOperation>,
}

/// The wallets that liquidity moves between, and what the pool's wallet holds.
#[derive(Clone, Copy, Debug, PartialEq, Eq)]
pub struct PoleLiquidityAccounts {
    pub user_liquidity_wallet: Address,
    pub pole_liquidity_wallet: Address,
    /// Idle liquidity: the balance of the pool's wallet.
    pub pole_liquidity: u64,
}

/// The share token and the user's share wallet.
#[derive(Clone, Copy, Debug, PartialEq, Eq)]
pub struct PoleLPAccounts {
    pub lp_mint: Address,
    pub user_lp_wallet: Address,
    /// Shares in existence: the supply of the share token.
    pub lp_supply: u64,
}

/// What an operation reads of the pool's position in the lending protocol.
#[derive(Clone, Copy, Debug, PartialEq, Eq, Structural)]
pub struct PortPosition {
    /// Number of deposits that the position holds.
    pub deposits_count: u8,
    /// Number of borrows that the position holds.
    pub borrows_count: u8,
    /// Whether the position has to be refreshed before it is used.
    pub obligation_stale: bool,
    /// Whether the reserve has to be refreshed before it is used.
    pub reserve_stale: bool,
    /// The reserve's loan-to-value ratio, in percent.
    pub loan_to_value: u8,
    /// The reserve's rate of collateral per liquidity.
    pub exchange_rate: CollateralExchangeRate,
    /// Liquidity that the position is worth.
    pub liquidity: Decimal,
}

/// The accounts of the lending protocol, and what is read of them.
#[derive(Clone, Copy, Debug, PartialEq, Eq)]
pub struct PortLendingAccounts {
    pub user_lp_wallet: Address,
    pub lp_mint: Address,
    pub reserve_lp_wallet: Address,
    pub liquidity_mint: Address,
    pub reserve_liquidity_wallet: Address,
    pub obligation: Address,
    pub reserve: Address,
    pub reserve_fee: Address,
    pub stake_account: Address,
    pub staking_pool: Address,
    pub lending_market: Address,
    pub lending_market_authority: Address,
    pub port_lending_program: Address,
    pub port_staking_program: Address,
    pub position: PortPosition,
}

/// The accounts of the staking protocol.
#[derive(Clone, Copy, Debug, PartialEq, Eq)]
pub struct PortStakingAccounts {
    pub staking_program_authority: Address,
    pub port_staking_program: Address,
    pub stake_account: Address,
    pub staking_pool: Address,
    pub reward_supply: Address,
}

/// The accounts of the market on which rewards are sold, and its lot size.
#[derive(Clone, Copy, Debug, PartialEq, Eq)]
pub struct MarketAccounts {
    pub market: Address,
    pub open_orders: Address,
    pub request_queue: Address,
    pub event_queue: Address,
    pub bids: Address,
    pub asks: Address,
    pub coin_vault: Address,
    pub pc_vault: Address,
    pub vault_signer: Address,
    /// Smallest quantity of the reward token that the market trades.
    pub coin_lot_size: u64,
}

/// Accounts of a deposit step.
#[derive(Clone, Copy, Debug, PartialEq, Eq)]
pub struct DepositLiquidity {
    pub pole_liquidity_accounts: PoleLiquidityAccounts,
    pub pole_lp_accounts: PoleLPAccounts,
    pub port_accounts: PortLendingAccounts,
    pub token_program: Address,
    /// The current slot.
    pub clock_slot: u64,
}

/// Accounts of a redeem step.
#[derive(Clone, Copy, Debug, PartialEq, Eq)]
pub struct RedeemLiquidity {
    pub pole_fee_account: Address,
    pub pole_liquidity_accounts: PoleLiquidityAccounts,
    pub pole_lp_accounts: PoleLPAccounts,
    pub port_accounts: PortLendingAccounts,
    pub token_program: Address,
    /// The current slot.
    pub clock_slot: u64,
}

/// Accounts of a harvest.
#[derive(Clone, Copy, Debug, PartialEq, Eq)]
pub struct ClaimAndSell {
    pub liquidity_supply: Address,
    pub port_supply: Address,
    /// Reward tokens that the pool holds once the reward has been claimed.
    pub port_supply_amount: u64,
    pub market_accounts: MarketAccounts,
    pub port_accounts: PortStakingAccounts,
    pub port_mint: Address,
    pub token_program: Address,
    pub dex_program: Address,
    pub swap_program: Address,
    /// The current slot.
    pub clock_slot: u64,
}

/// Accounts of a change of owner.
#[derive(Clone, Copy, Debug, PartialEq, Eq)]
pub struct ChangeOwner {
    /// The account that signs.
    pub owner: Address,
}

/// Accounts of a change of fee receiver.
#[derive(Clone, Copy, Debug, PartialEq, Eq)]
pub struct ChangeFeeReceiver {
    /// The account that signs.
    pub owner: Address,
}

/// Accounts of a change of the liquidity cap.
#[derive(Clone, Copy, Debug, PartialEq, Eq)]
pub struct ChangeLiquidityCap {
    /// The account that signs.
    pub owner: Address,
}

/// Accounts of a change of the withdrawal fee.
#[derive(Clone, Copy, Debug, PartialEq, Eq)]
pub struct ChangeWithdrawFee {
    /// The account that signs.
    pub owner: Address,
}

/// Accounts of a change of the minimum deposit.
#[derive(Clone, Copy, Debug, PartialEq, Eq)]
pub struct ChangeMinDeposit {
    /// The account that signs.
    pub owner: Address,
}

/// Accounts of the creation of a balance record.
#[derive(Clone, Copy, Debug, PartialEq, Eq)]
pub struct CreateUserBalance {
    pub user: Address,
}

/// Accounts of an addition to a balance record.
#[derive(Clone, Copy, Debug, PartialEq, Eq)]
pub struct AddBalance {
    /// The account that signs.
    pub user: Address,
    /// The current slot.
    pub clock_slot: u64,
}

/// Accounts of a withdrawal from a balance record.
#[derive(Clone, Copy, Debug, PartialEq, Eq)]
pub struct WithdrawBalance {
    /// The account that signs.
    pub user: Address,
    /// The current slot.
    pub clock_slot: u64,
}

impl DepositLiquidity {
    /// The reason for which these accounts refuse a deposit step of `amount`
    /// on `pool`, if they do. The checks are made in this order.
    pub open spec fn rejection(&self, pool: &PolePortPool, amount: u64) -> Option<PoleError> {
        let state = pool.port_state;
        let position = self.port_accounts.position;
        if position.deposits_count > 1 || position.borrows_count > 1 {
            Some(PoleError::ConstraintRaw)
        } else if state.last_sold_slot != 0 && self.clock_slot < state.last_sold_slot {
            Some(PoleError::MathOverflow)
        } else if state.last_sold_slot != 0 && self.clock_slot - state.last_sold_slot
            > STALE_SLOT {
            Some(PoleError::PortNotSell)
        } else if pool.generic_config.liquidity_supply
            != self.pole_liquidity_accounts.pole_liquidity_wallet {
            Some(PoleError::InvalidLiquidityWallet)
        } else if pool.generic_config.lp_mint != self.pole_lp_accounts.lp_mint {
            Some(PoleError::InvalidLPMint)
        } else if pool.port_config.obligation != self.port_accounts.obligation {
            Some(PoleError::InvalidObligation)
        } else if pool.port_config.stake_account != self.port_accounts.stake_account {
            Some(PoleError::InvalidStakeAccount)
        } else if pool.port_config.port_lending_program
            != self.port_accounts.port_lending_program {
            Some(PoleError::InvalidPortLendingProgram)
        } else if pool.generic_config.token_program != self.token_program {
            Some(PoleError::InvalidTokenProgram)
        } else if state.deposit_verified != 1 {
            Some(PoleError::DepositNotVerified)
        } else if (state.leverage == 0) == (amount == 0) {
            Some(PoleError::DepositAmountInvalid)
        } else if pool.basic_state.lp_amount != self.pole_lp_accounts.lp_supply {
            Some(PoleError::LPMintAmountNotMatch)
        } else if state.approved_wallet != self.pole_liquidity_accounts.user_liquidity_wallet {
            Some(PoleError::WrongWallet)
        } else if position.obligation_stale {
            Some(PoleError::ObligationStale)
        } else if position.reserve_stale {
            Some(PoleError::ReserveStale)
        } else if self.port_accounts.reserve != pool.port_config.reserve {
            Some(PoleError::ConstraintRaw)
        } else {
            None
        }
    }

    /// Checks that these accounts are those of a deposit step of `amount` on
    /// `pool`.
    pub fn check(&self, pool: &PolePortPool, amount: u64) -> (r: Result<(), PoleError>)
        ensures
            r == match self.rejection(pool, amount) {
                Some(e) => Err::<(), PoleError>(e),
                None => Ok(()),
            },
    {
        let state = &pool.port_state;
        let position = &self.port_accounts.position;
        if position.deposits_count > 1 || position.borrows_count > 1 {
            return Err(PoleError::ConstraintRaw);
        }
        if state.last_sold_slot != 0 {
            if self.clock_slot < state.last_sold_slot {
                return Err(PoleError::MathOverflow);
            }
            if self.clock_slot - state.last_sold_slot > STALE_SLOT {
                return Err(PoleError::PortNotSell);
            }
        }
        if !pool.generic_config.liquidity_supply.same(
            &self.pole_liquidity_accounts.pole_liquidity_wallet,
        ) {
            return Err(PoleError::InvalidLiquidityWallet);
        }
        if !pool.generic_config.lp_mint.same(&self.pole_lp_accounts.lp_mint) {
            return Err(PoleError::InvalidLPMint);
        }
        if !pool.port_config.obligation.same(&self.port_accounts.obligation) {
            return Err(PoleError::InvalidObligation);
        }
        if !pool.port_config.stake_account.same(&self.port_accounts.stake_account) {
            return Err(PoleError::InvalidStakeAccount);
        }
        if !pool.port_config.port_lending_program.same(&self.port_accounts.port_lending_program) {
            return Err(PoleError::InvalidPortLendingProgram);
        }
        if !pool.generic_config.token_program.same(&self.token_program) {
            return Err(PoleError::InvalidTokenProgram);
        }
        if state.deposit_verified != 1 {
            return Err(PoleError::DepositNotVerified);
        }
        if (state.leverage == 0) == (amount == 0) {
            return Err(PoleError::DepositAmountInvalid);
        }
        if pool.basic_state.lp_amount != self.pole_lp_accounts.lp_supply {
            return Err(PoleError::LPMintAmountNotMatch);
        }
        if !state.approved_wallet.same(&self.pole_liquidity_accounts.user_liquidity_wallet) {
            return Err(PoleError::WrongWallet);
        }
        if position.obligation_stale {
            return Err(PoleError::ObligationStale);
        }
        if position.reserve_stale {
            return Err(PoleError::ReserveStale);
        }
        if !self.port_accounts.reserve.same(&pool.port_config.reserve) {
            return Err(PoleError::ConstraintRaw);
        }
        Ok(())
    }
}

impl RedeemLiquidity {
    /// The reason for which these accounts refuse a redeem step of `amount`
    /// on `pool`, if they do. The checks are made in this order.
    pub open spec fn rejection(&self, pool: &PolePortPool, amount: u64) -> Option<PoleError> {
        let state = pool.port_state;
        let position = self.port_accounts.position;
        if position.deposits_count > 1 || position.borrows_count > 1 {
            Some(PoleError::ConstraintRaw)
        } else if self.clock_slot < state.last_sold_slot {
            Some(PoleError::MathOverflow)
        } else if self.clock_slot - state.last_sold_slot > STALE_SLOT {
            Some(PoleError::PortNotSell)
        } else if (amount == 0) == (state.leverage == 0) {
            Some(PoleError::RedeemAmountInvalid)
        } else if pool.generic_config.liquidity_supply
            != self.pole_liquidity_accounts.pole_liquidity_wallet {
            Some(PoleError::InvalidLiquidityWallet)
        } else if pool.port_config.obligation != self.port_accounts.obligation {
            Some(PoleError::InvalidObligation)
        } else if pool.port_config.stake_account != self.port_accounts.stake_account {
            Some(PoleError::InvalidStakeAccount)
        } else if pool.port_config.port_lending_program
            != self.port_accounts.port_lending_program {
            Some(PoleError::InvalidPortLendingProgram)
        } else if pool.generic_config.token_program != self.token_program {
            Some(PoleError::InvalidTokenProgram)
        } else if pool.generic_config.fee_receiver != self.pole_fee_account {
            Some(PoleError::InvalidFeeAccount)
        } else if state.redeem_verified != 1 {
            Some(PoleError::RedeemNotVerified)
        } else if pool.basic_state.lp_amount != self.pole_lp_accounts.lp_supply {
            Some(PoleError::LPMintAmountNotMatch)
        } else if state.approved_wallet != self.pole_lp_accounts.user_lp_wallet {
            Some(PoleError::WrongWallet)
        } else if self.port_accounts.reserve != pool.port_config.reserve {
            Some(PoleError::ConstraintRaw)
        } else {
            None
        }
    }

    /// Checks that these accounts are those of a redeem step of `amount` on
    /// `pool`.
    pub fn check(&self, pool: &PolePortPool, amount: u64) -> (r: Result<(), PoleError>)
        ensures
            r == match self.rejection(pool, amount) {
                Some(e) => Err::<(), PoleError>(e),
                None => Ok(()),
            },
    {
        let state = &pool.port_state;
        let position = &self.port_accounts.position;
        if position.deposits_count > 1 || position.borrows_count > 1 {
            return Err(PoleError::ConstraintRaw);
        }
        if self.clock_slot < state.last_sold_slot {
            return Err(PoleError::MathOverflow);
        }
        if self.clock_slot - state.last_sold_slot > STALE_SLOT {
            return Err(PoleError::PortNotSell);
        }
        if (amount == 0) == (state.leverage == 0) {
            return Err(PoleError::RedeemAmountInvalid);
        }
        if !pool.generic_config.liquidity_supply.same(
            &self.pole_liquidity_accounts.pole_liquidity_wallet,
        ) {
            return Err(PoleError::InvalidLiquidityWallet);
        }
        if !pool.port_config.obligation.same(&self.port_accounts.obligation) {
            return Err(PoleError::InvalidObligation);
        }
        if !pool.port_config.stake_account.same(&self.port_accounts.stake_account) {
            return Err(PoleError::InvalidStakeAccount);
        }
        if !pool.port_config.port_lending_program.same(&self.port_accounts.port_lending_program) {
            return Err(PoleError::InvalidPortLendingProgram);
        }
        if !pool.generic_config.token_program.same(&self.token_program) {
            return Err(PoleError::InvalidTokenProgram);
        }
        if !pool.generic_config.fee_receiver.same(&self.pole_fee_account) {
            return Err(PoleError::InvalidFeeAccount);
        }
        if state.redeem_verified != 1 {
            return Err(PoleError::RedeemNotVerified);
        }
        if pool.basic_state.lp_amount != self.pole_lp_accounts.lp_supply {
            return Err(PoleError::LPMintAmountNotMatch);
        }
        if !state.approved_wallet.same(&self.pole_lp_accounts.user_lp_wallet) {
            return Err(PoleError::WrongWallet);
        }
        if !self.port_accounts.reserve.same(&pool.port_config.reserve) {
            return Err(PoleError::ConstraintRaw);
        }
        Ok(())
    }
}

impl ClaimAndSell {
    /// The reason for which these accounts refuse a harvest on `pool`, if
    /// they do. The checks are made in this order.
    pub open spec fn rejection(&self, pool: &PolePortPool) -> Option<PoleError> {
        if pool.generic_config.liquidity_supply != self.liquidity_supply {
            Some(PoleError::InvalidLiquidityWallet)
        } else if pool.port_config.port_supply != self.port_supply {
            Some(PoleError::InvalidPortWallet)
        } else if pool.port_config.stake_account != self.port_accounts.stake_account {
            Some(PoleError::InvalidStakeAccount)
        } else if pool.port_config.port_staking_program
            != self.port_accounts.port_staking_program {
            Some(PoleError::InvalidStakingProgram)
        } else if pool.generic_config.token_program != self.token_program {
            Some(PoleError::InvalidTokenProgram)
        } else if pool.serum_config.dex_program != self.dex_program {
            Some(PoleError::InvalidDexProgram)
        } else if pool.serum_config.swap_program != self.swap_program {
            Some(PoleError::InvalidSwapProgram)
        } else {
            None
        }
    }

    /// Checks that these accounts are those of a harvest on `pool`.
    pub fn check(&self, pool: &PolePortPool) -> (r: Result<(), PoleError>)
        ensures
            r == match self.rejection(pool) {
                Some(e) => Err::<(), PoleError>(e),
                None => Ok(()),
            },
    {
        if !pool.generic_config.liquidity_supply.same(&self.liquidity_supply) {
            return Err(PoleError::InvalidLiquidityWallet);
        }
        if !pool.port_config.port_supply.same(&self.port_supply) {
            return Err(PoleError::InvalidPortWallet);
        }
        if !pool.port_config.stake_account.same(&self.port_accounts.stake_account) {
            return Err(PoleError::InvalidStakeAccount);
        }
        if !pool.port_config.port_staking_program.same(&self.port_accounts.port_staking_program) {
            return Err(PoleError::InvalidStakingProgram);
        }
        if !pool.generic_config.token_program.same(&self.token_program) {
            return Err(PoleError::InvalidTokenProgram);
        }
        if !pool.serum_config.dex_program.same(&self.dex_program) {
            return Err(PoleError::InvalidDexProgram);
        }
        if !pool.serum_config.swap_program.same(&self.swap_program) {
            return Err(PoleError::InvalidSwapProgram);
        }
        Ok(())
    }
}

/// Checks that `signer` is the owner of `pool`.
pub fn check_owner(pool: &PolePortPool, signer: &Address) -> (r: Result<(), PoleError>)
    ensures
        r == if pool.generic_config.owner == *signer {
            Ok::<(), PoleError>(())
        } else {
            Err::<(), PoleError>(PoleError::InvalidOwner)
        },
{
    if pool.generic_config.owner.same(signer) {
        Ok(())
    } else {
        Err(PoleError::InvalidOwner)
    }
}

/// Checks that `user_balance` is the record of `signer`.
pub fn check_balance_owner(user_balance: &UserBalance, signer: &Address) -> (r: Result<
    (),
    PoleError,
>)
    ensures
        r == if user_balance.user == *signer {
            Ok::<(), PoleError>(())
        } else {
            Err::<(), PoleError>(PoleError::ConstraintHasOne)
        },
{
    if user_balance.user.same(signer) {
        Ok(())
    } else {
        Err(PoleError::ConstraintHasOne)
    }
}

} // verus!
