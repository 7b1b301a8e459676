//! What the pool announces when an operation completes.

use vstd::prelude::*;

verus! {

/// A deposit round has completed.
#[derive(Clone, Copy, Debug, PartialEq, Eq, Structural)]
pub struct DidDeposit {
    pub liquidity_amount_deposited: u64,
    pub lp_amount_minted: u64,
}

/// A redemption has been paid out.
#[derive(Clone, Copy, Debug, PartialEq, Eq, Structural)]
pub struct DidRedeem {
    pub liquidity_amount_redeemed: u64,
    pub lp_amount_burned: u64,
}

/// Rewards have been harvested and offered for sale.
#[derive(Clone, Copy, Debug, PartialEq, Eq, Structural)]
pub struct DidSell {
    pub base_amount: u64,
    pub slot: u64,
}

/// Shares have been staked.
#[derive(Clone, Copy, Debug, PartialEq, Eq, Structural)]
pub struct DidStake {
    pub amount: u64,
    pub slot: u64,
}

/// Shares have been unstaked.
#[derive(Clone, Copy, Debug, PartialEq, Eq, Structural)]
pub struct DidUnstake {
    pub amount: u64,
    pub slot: u64,
}

} // verus!
