//! Accounting engine of a leveraged-yield liquidity pool.
//!
//! Users deposit liquidity; the pool supplies it to a lending protocol and
//! borrows against it, several times over, and gives shares in return. The
//! rounds that build and unwind this leverage take one step per call, so the
//! pool record carries the progress of the round in flight.
//!
//! - [`fixed`] and [`lending`]: fixed-point quantities and the conversions of
//!   the lending protocol, computed by the outside crates.
//! - [`states`]: the pool record and the price of a share.
//! - [`helpers`]: the invariant validator and the plans of single steps.
//! - [`batch`]: the verifier of operation batches, which opens rounds.
//! - [`deposit`], [`redeem`], [`harvest`]: the engines.
//! - [`pool`]: creation, administration and the balance records.
//! - [`instructions`]: what each operation reads of its accounts.
//!
//! Nothing here reaches the outside world: every operation takes what was
//! observed of it as plain values and returns what has to be done with it.

pub mod address;
pub mod batch;
pub mod deposit;
pub mod error;
pub mod event;
pub mod fixed;
pub mod harvest;
pub mod helpers;
pub mod instructions;
pub mod lending;
pub mod pool;
pub mod redeem;
pub mod states;
pub mod writer;

pub use crate::deposit::{deposit_liquidity, plan_deposit};
pub use crate::harvest::claim_and_sell;
pub use crate::pool::{
    add_balance, change_fee_receiver, change_liquidity_cap, change_min_deposit, change_owner,
    change_withdraw_fee, create_pool, create_user_balance, init_port_accounts, verify_deposit,
    verify_redeem, withdraw_balance,
};
pub use crate::redeem::redeem_liquidity;
