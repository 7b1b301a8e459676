//! What the pool reads of the lending protocol: the rate at which the
//! protocol exchanges collateral for liquidity. The conversions are those of
//! the `port_variable_rate_lending_instructions` crate.

use vstd::prelude::*;
use crate::error::PoleError;
use crate::fixed::{pow192, Rate, WAD};
use port_variable_rate_lending_instructions::solana_program::program_error::ProgramError;

verus! {

/// Collateral per unit of liquidity, as the lending protocol quotes it.
#[derive(Clone, Copy, Debug, PartialEq, Eq, Structural)]
pub struct CollateralExchangeRate(pub Rate);

/// Liquidity that `collateral` units of collateral are worth at a rate whose
/// scaled integer is `rate`, rounded down.
pub open spec fn liquidity_of_collateral(rate: nat, collateral: nat) -> nat {
    (((collateral * WAD) * WAD) / (rate as int) / (WAD as int)) as nat
}

/// Collateral that `liquidity` units of liquidity are worth at a rate whose
/// scaled integer is `rate`, rounded down.
pub open spec fn collateral_of_liquidity(rate: nat, liquidity: nat) -> nat {
    (((liquidity * WAD) * rate) / (WAD as int) / (WAD as int)) as nat
}

/// `CollateralExchangeRate::collateral_to_liquidity` of
/// `port_variable_rate_lending_instructions`: the collateral, scaled twice,
/// divided by the rate and brought back to whole units. An error when the
/// rate is zero or the result leaves `u64`.
#[verifier::external_body]
fn raw_collateral_to_liquidity(rate: Rate, collateral: u64) -> (r: Result<u64, ProgramError>)
    ensures
        r is Ok <==> (rate@ != 0 && liquidity_of_collateral(rate@, collateral as nat) <= u64::MAX),
        r matches Ok(v) ==> v == liquidity_of_collateral(rate@, collateral as nat),
{
    let x = solana_maths::Rate(solana_maths::U128([rate.w0, rate.w1]));
    port_variable_rate_lending_instructions::state::CollateralExchangeRate(x)
        .collateral_to_liquidity(collateral)
}

/// `CollateralExchangeRate::liquidity_to_collateral` of
/// `port_variable_rate_lending_instructions`: the scaled liquidity times the
/// rate, brought back to whole units. An error when the product leaves 192
/// bits or the result leaves `u64`.
#[verifier::external_body]
fn raw_liquidity_to_collateral(rate: Rate, liquidity: u64) -> (r: Result<u64, ProgramError>)
    ensures
        r is Ok <==> ((liquidity * WAD) * rate@ < pow192() && collateral_of_liquidity(
            rate@,
            liquidity as nat,
        ) <= u64::MAX),
        r matches Ok(v) ==> v == collateral_of_liquidity(rate@, liquidity as nat),
{
    let x = solana_maths::Rate(solana_maths::U128([rate.w0, rate.w1]));
    port_variable_rate_lending_instructions::state::CollateralExchangeRate(x)
        .liquidity_to_collateral(liquidity)
}

impl CollateralExchangeRate {
    /// What `collateral_to_liquidity` returns.
    pub open spec fn spec_collateral_to_liquidity(&self, collateral: u64) -> Result<u64, PoleError> {
        let v = liquidity_of_collateral(self.0@, collateral as nat);
        if self.0@ != 0 && v <= u64::MAX {
            Ok(v as u64)
        } else {
            Err(PoleError::MathOverflow)
        }
    }

    /// What `liquidity_to_collateral` returns.
    pub open spec fn spec_liquidity_to_collateral(&self, liquidity: u64) -> Result<u64, PoleError> {
        let v = collateral_of_liquidity(self.0@, liquidity as nat);
        if (liquidity * WAD) * self.0@ < pow192() && v <= u64::MAX {
            Ok(v as u64)
        } else {
            Err(PoleError::MathOverflow)
        }
    }

    /// Liquidity that `collateral` is worth, rounded down. Fails when the rate
    /// is zero or the result does not fit in 64 bits.
    pub fn collateral_to_liquidity(&self, collateral: u64) -> (r: Result<u64, PoleError>)
        ensures
            r == self.spec_collateral_to_liquidity(collateral),
    {
        match raw_collateral_to_liquidity(self.0, collateral) {
            Ok(v) => Ok(v),
            Err(_) => Err(PoleError::MathOverflow),
        }
    }

    /// Collateral that `liquidity` is worth, rounded down. Fails when the
    /// scaled product does not fit in 192 bits or the result in 64 bits.
    pub fn liquidity_to_collateral(&self, liquidity: u64) -> (r: Result<u64, PoleError>)
        ensures
            r == self.spec_liquidity_to_collateral(liquidity),
    {
        match raw_liquidity_to_collateral(self.0, liquidity) {
            Ok(v) => Ok(v),
            Err(_) => Err(PoleError::MathOverflow),
        }
    }
}

} // verus!
