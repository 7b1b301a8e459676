//! The harvest: what to sell of the rewards that the staking protocol pays.

use vstd::prelude::*;
use crate::error::PoleError;
use crate::event::DidSell;
use crate::helpers::{admission, valid_pole_pool};
use crate::instructions::ClaimAndSell;
use crate::states::{PolePortPool, PortState};

verus! {

/// What a harvest has to do once the reward has been claimed.
#[derive(Clone, Copy, Debug, PartialEq, Eq, Structural)]
pub struct Harvest {
    /// Reward tokens to offer for sale; none when they do not fill a lot.
    pub swap: Option<u64>,
    /// What to announce.
    pub event: DidSell,
}

/// The pool after a harvest, and what the harvest has to do. The pool's
/// invariants are checked first, then the accounts. All reward tokens that
/// the pool holds are offered if they fill at least one lot of the market;
/// whether or not they do, the harvest is stamped with the current slot.
pub open spec fn harvest_outcome(pool: &PolePortPool, accounts: &ClaimAndSell) -> Result<
    (PolePortPool, Harvest),
    PoleError,
> {
    let sell_amount = accounts.port_supply_amount;
    let lot = accounts.market_accounts.coin_lot_size;
    match admission(pool, accounts.rejection(pool)) {
        Some(e) => Err(e),
        None => if lot == 0 {
            Err(PoleError::MathOverflow)
        } else {
            Ok(
                (
                    PolePortPool {
                        port_state: PortState {
                            last_sold_slot: accounts.clock_slot,
                            ..pool.port_state
                        },
                        ..*pool
                    },
                    Harvest {
                        swap: if sell_amount / lot != 0 {
                            Some(sell_amount)
                        } else {
                            None
                        },
                        event: DidSell { base_amount: sell_amount, slot: accounts.clock_slot },
                    },
                ),
            )
        },
    }
}

/// Harvests: decides what to sell of the claimed reward and stamps the pool
/// with the current slot. On failure the pool is as it was.
pub fn claim_and_sell(pool: &mut PolePortPool, accounts: &ClaimAndSell) -> (r: Result<
    Harvest,
    PoleError,
>)
    ensures
        match harvest_outcome(old(pool), accounts) {
            Ok((after, harvest)) => r == Ok::<Harvest, PoleError>(harvest) && *final(pool)
                == after,
            Err(e) => r == Err::<Harvest, PoleError>(e) && *final(pool) == *old(pool),
        },
{
    valid_pole_pool(pool)?;
    accounts.check(pool)?;
    let sell_amount = accounts.port_supply_amount;
    let coin_lots: u64 = match sell_amount.checked_div(accounts.market_accounts.coin_lot_size) {
        Some(v) => v,
        None => { return Err(PoleError::MathOverflow); },
    };
    pool.port_state.last_sold_slot = accounts.clock_slot;
    Ok(
        Harvest {
            swap: if coin_lots != 0 {
                Some(sell_amount)
            } else {
                None
            },
            event: DidSell { base_amount: sell_amount, slot: accounts.clock_slot },
        },
    )
}

} // verus!
