//! The pool record, the share price and the per-user balance record.

use vstd::prelude::*;
use crate::address::Address;
use crate::error::PoleError;
use crate::fixed::{pow192, Decimal, Rate, WAD};
use crate::instructions::StakingBumps;

verus! {

/// Owner-administered settings of a pool.
#[derive(Clone, Copy, Debug, PartialEq, Eq)]
pub struct GenericPoolConfig {
    /// Bump of the pool's signing authority; a byte.
    pub bump: u64,
    pub liquidity_cap: u64,
    /// Withdrawal fee in basis points; a byte.
    pub withdraw_fee_bips: u64,
    pub fee_receiver: Address,
    pub owner: Address,
    pub lp_mint: Address,
    pub liquidity_supply: Address,
    pub token_program: Address,
}

/// How the pool leverages, and the lending and staking accounts bound to it.
#[derive(Clone, Copy, Debug, PartialEq, Eq)]
pub struct PortConfig {
    pub min_deposit: u64,
    pub obligation: Address,
    pub reserve: Address,
    pub stake_account: Address,
    pub port_lending_program: Address,
    pub port_staking_program: Address,
    pub port_token_mint: Address,
    pub port_lp_supply: Address,
    pub port_supply: Address,
    /// Number of steps of a leverage round.
    pub port_iterate: u64,
    /// Safety margin, in percent, kept below the loan-to-value ratio.
    pub port_reserve_percentage: u64,
}

/// The swap venue on which rewards are sold.
#[derive(Clone, Copy, Debug, PartialEq, Eq)]
pub struct SerumConfig {
    pub dex_program: Address,
    pub swap_program: Address,
    pub port_open_orders: Address,
}

/// Shares outstanding.
#[derive(Clone, Copy, Debug, PartialEq, Eq, Structural)]
pub struct BasicState {
    pub lp_amount: u64,
}

/// Progress of the round in flight.
#[derive(Clone, Copy, Debug, PartialEq, Eq)]
pub struct PortState {
    /// 1 while a verified deposit round is open, else 0.
    pub deposit_verified: u64,
    /// 1 while a verified redeem round is open, else 0.
    pub redeem_verified: u64,
    /// Steps of the round already taken.
    pub leverage: u64,
    /// Liquidity of the lending position when the round began.
    pub init_port_liquidity: Decimal,
    /// The wallet that may continue the round.
    pub approved_wallet: Address,
    /// 1 once the redeemed liquidity has been paid out, else 0.
    pub is_redeemed: u64,
    pub redeem_amount: u64,
    pub amount_to_unroll: u64,
    /// Slot of the last harvest, 0 before the first.
    pub last_sold_slot: u64,
    /// The depositor's share of the liquidity that the round supplies.
    pub user_liquidity_percentage: Rate,
}

/// Where a pool stands in its cycle of rounds.
#[derive(Clone, Copy, Debug, PartialEq, Eq, Structural)]
pub enum RoundStage {
    /// Between rounds.
    Idle,
    /// In a deposit round of which this many steps have been taken.
    Building(u64),
    /// In a redeem round of which this many steps have been taken.
    Unwinding(u64),
}

/// The pool record.
#[derive(Clone, Copy, Debug, PartialEq, Eq)]
pub struct PolePortPool {
    pub generic_config: GenericPoolConfig,
    pub port_config: PortConfig,
    pub serum_config: SerumConfig,
    pub basic_state: BasicState,
    pub port_state: PortState,
}

/// A staking pool record.
#[derive(Clone, Copy, Debug, PartialEq, Eq)]
pub struct StakingPool {
    pub bumps: StakingBumps,
    pub yielding_pool: Address,
    pub port_staking_pool: Address,
    pub lp_wallet: Address,
    pub owner: Address,
    pub staking_program: Address,
    pub token_program: Address,
}

/// Shares per unit of liquidity, scaled.
#[derive(Clone, Copy, Debug, PartialEq, Eq, Structural)]
pub struct ExchangeRate(pub Decimal);

/// A user's balance record.
#[derive(Clone, Copy, Debug, PartialEq, Eq)]
pub struct UserBalance {
    pub balance: u64,
    pub last_update: u64,
    pub user: Address,
}

/// The scaled rate at which a pool with `lp_amount` shares over `liquidity`
/// scaled units of liquidity prices its shares: one to one while either is
/// zero, else shares per unit of liquidity, rounded down to the scale.
pub open spec fn rate_of(lp_amount: nat, liquidity: nat) -> nat {
    if liquidity == 0 || lp_amount == 0 {
        WAD as nat
    } else {
        (((lp_amount * WAD) * WAD) / (liquidity as int)) as nat
    }
}

/// Shares that `liquidity` units buy at the scaled rate `rate`, rounded down.
pub open spec fn shares_for(rate: nat, liquidity: nat) -> nat {
    (rate * liquidity) / (WAD as nat)
}

/// Liquidity that `shares` shares are worth at the scaled rate `rate`, rounded
/// down. Meaningful for a rate other than zero.
pub open spec fn liquidity_for(rate: nat, shares: nat) -> nat {
    ((((shares * WAD) * WAD) / (rate as int)) / (WAD as int)) as nat
}

/// The shares that `liquidity_amount` buys at the scaled rate `rate`, or the
/// failure of the conversion: the scaled product has to stay below 2^192 and
/// the shares within 64 bits.
pub open spec fn liquidity_to_lp_at(rate: nat, liquidity_amount: u64) -> Result<u64, PoleError> {
    let v = shares_for(rate, liquidity_amount as nat);
    if rate * liquidity_amount < pow192() && v <= u64::MAX {
        Ok(v as u64)
    } else {
        Err(PoleError::MathOverflow)
    }
}

/// The liquidity that `lp_amount` shares are worth at the scaled rate `rate`,
/// or the failure of the conversion: the rate must not be zero and the
/// liquidity has to stay within 64 bits.
pub open spec fn lp_to_liquidity_at(rate: nat, lp_amount: u64) -> Result<u64, PoleError> {
    let v = liquidity_for(rate, lp_amount as nat);
    if rate != 0 && v <= u64::MAX {
        Ok(v as u64)
    } else {
        Err(PoleError::MathOverflow)
    }
}

impl GenericPoolConfig {
    /// Whether the two fields that stand for bytes are in the range of a byte.
    pub open spec fn spec_validate(&self) -> bool {
        self.bump <= 255 && self.withdraw_fee_bips <= 255
    }

    #[verifier::when_used_as_spec(spec_validate)]
    pub fn validate(&self) -> (r: bool)
        ensures
            r == self.spec_validate(),
    {
        self.bump <= 255 && self.withdraw_fee_bips <= 255
    }
}

impl PortConfig {
    /// Whether the leverage settings are in range: a minimum deposit above
    /// ten, one to nine steps to a round, and a safety margin of one to
    /// twenty percent.
    pub open spec fn spec_validate(&self) -> bool {
        &&& self.min_deposit > 10
        &&& 1 <= self.port_iterate < 10
        &&& 1 <= self.port_reserve_percentage <= 20
    }

    #[verifier::when_used_as_spec(spec_validate)]
    pub fn validate(&self) -> (r: bool)
        ensures
            r == self.spec_validate(),
    {
        self.min_deposit > 10 && 1 <= self.port_iterate && self.port_iterate < 10 && 1
            <= self.port_reserve_percentage && self.port_reserve_percentage <= 20
    }
}

impl Default for BasicState {
    fn default() -> (r: BasicState)
        ensures
            r.lp_amount == 0,
    {
        BasicState { lp_amount: 0 }
    }
}

impl PortState {
    /// The state between rounds, as a function of the slot of the last harvest.
    pub open spec fn idle(last_sold_slot: u64) -> PortState {
        PortState {
            deposit_verified: 0,
            redeem_verified: 0,
            leverage: 0,
            init_port_liquidity: Decimal { w0: 0, w1: 0, w2: 0 },
            approved_wallet: Address::unset(),
            is_redeemed: 0,
            redeem_amount: 0,
            amount_to_unroll: 0,
            last_sold_slot,
            user_liquidity_percentage: Rate { w0: 0, w1: 0 },
        }
    }

    /// The stage that the flags and the step count stand for, if they stand
    /// for one: no round is open and no step taken, or exactly one kind of
    /// round is open.
    pub open spec fn spec_stage(&self) -> Option<RoundStage> {
        if self.deposit_verified == 0 && self.redeem_verified == 0 && self.leverage == 0 {
            Some(RoundStage::Idle)
        } else if self.deposit_verified == 1 && self.redeem_verified == 0 {
            Some(RoundStage::Building(self.leverage))
        } else if self.redeem_verified == 1 && self.deposit_verified == 0 {
            Some(RoundStage::Unwinding(self.leverage))
        } else {
            None
        }
    }

    /// The stage of the pool, or none if the record stands for no stage.
    #[verifier::when_used_as_spec(spec_stage)]
    pub fn stage(&self) -> (r: Option<RoundStage>)
        ensures
            r == self.spec_stage(),
    {
        if self.deposit_verified == 0 && self.redeem_verified == 0 && self.leverage == 0 {
            Some(RoundStage::Idle)
        } else if self.deposit_verified == 1 && self.redeem_verified == 0 {
            Some(RoundStage::Building(self.leverage))
        } else if self.redeem_verified == 1 && self.deposit_verified == 0 {
            Some(RoundStage::Unwinding(self.leverage))
        } else {
            None
        }
    }

    /// Ends the round: everything but the slot of the last harvest returns to
    /// its zero state.
    pub fn reset(&mut self)
        ensures
            *final(self) == PortState::idle(old(self).last_sold_slot),
    {
        self.deposit_verified = 0;
        self.redeem_verified = 0;
        self.leverage = 0;
        self.init_port_liquidity = Decimal::zero();
        self.approved_wallet = Address::unset();
        self.is_redeemed = 0;
        self.redeem_amount = 0;
        self.amount_to_unroll = 0;
        self.user_liquidity_percentage = Rate::zero();
    }
}

impl Default for PortState {
    fn default() -> (r: PortState)
        ensures
            r == PortState::idle(0),
    {
        PortState {
            deposit_verified: 0,
            redeem_verified: 0,
            leverage: 0,
            init_port_liquidity: Decimal::zero(),
            approved_wallet: Address::unset(),
            is_redeemed: 0,
            redeem_amount: 0,
            amount_to_unroll: 0,
            last_sold_slot: 0,
            user_liquidity_percentage: Rate::zero(),
        }
    }
}

impl BasicState {
    /// The price of a share when the pool's liquidity is `liquidity_amount`.
    /// Never fails: the scaled share count stays below 2^192.
    pub fn exchange_rate(&self, liquidity_amount: Decimal) -> (r: Result<ExchangeRate, PoleError>)
        ensures
            r matches Ok(rate) && rate.0@ == rate_of(self.lp_amount as nat, liquidity_amount@),
    {
        if liquidity_amount.is_zero() || self.lp_amount == 0 {
            Ok(ExchangeRate(Decimal::one()))
        } else {
            let shares = Decimal::from_u64(self.lp_amount);
            assert(shares@ * WAD < pow192()) by {
                assert(shares@ == self.lp_amount * 1_000_000_000_000_000_000);
            }
            match shares.try_div(liquidity_amount) {
                Ok(rate) => Ok(ExchangeRate(rate)),
                Err(e) => Err(e),
            }
        }
    }
}

impl ExchangeRate {
    /// What `liquidity_to_lp` returns.
    pub open spec fn spec_liquidity_to_lp(&self, liquidity_amount: u64) -> Result<u64, PoleError> {
        liquidity_to_lp_at(self.0@, liquidity_amount)
    }

    /// What `lp_to_liquidity` returns.
    pub open spec fn spec_lp_to_liquidity(&self, lp_amount: u64) -> Result<u64, PoleError> {
        lp_to_liquidity_at(self.0@, lp_amount)
    }

    /// Shares that `liquidity_amount` buys, rounded down. Fails when the
    /// scaled product leaves 192 bits or the shares leave 64 bits.
    pub fn liquidity_to_lp(&self, liquidity_amount: u64) -> (r: Result<u64, PoleError>)
        ensures
            r == self.spec_liquidity_to_lp(liquidity_amount),
    {
        let scaled = self.0.try_mul(liquidity_amount)?;
        scaled.try_floor_u64()
    }

    /// Liquidity that `lp_amount` shares are worth, rounded down. Fails when
    /// the rate is zero or the liquidity leaves 64 bits.
    pub fn lp_to_liquidity(&self, lp_amount: u64) -> (r: Result<u64, PoleError>)
        ensures
            r == self.spec_lp_to_liquidity(lp_amount),
    {
        let shares = Decimal::from_u64(lp_amount);
        assert(shares@ * WAD < pow192()) by {
            assert(shares@ == lp_amount * 1_000_000_000_000_000_000);
        }
        let scaled = shares.try_div(self.0)?;
        scaled.try_floor_u64()
    }
}

/// Liquidity bought back with the shares it was worth never exceeds it: at
/// any rate but zero, `shares_for(liquidity_for(s)) <= s`, and the scaled
/// product that the conversion forms stays within `s * WAD`.
pub proof fn lemma_shares_for_liquidity_for(rate: nat, shares: nat)
    requires
        rate > 0,
    ensures
        shares_for(rate, liquidity_for(rate, shares)) <= shares,
        rate * liquidity_for(rate, shares) <= shares * WAD,
{
    let w = WAD as int;
    let r = rate as int;
    let x = (shares * w) * w;
    let q = x / r;
    let l = q / w;
    assert(l == liquidity_for(rate, shares));
    assert(0 <= q && q * r <= x) by (nonlinear_arith)
        requires
            q == x / r,
            r > 0,
            x >= 0,
    ;
    assert(0 <= l && l * w <= q) by (nonlinear_arith)
        requires
            l == q / w,
            w > 0,
            q >= 0,
    ;
    assert(r * l <= shares * w) by (nonlinear_arith)
        requires
            l * w <= q,
            q * r <= x,
            x == (shares * w) * w,
            w > 0,
            r > 0,
            l >= 0,
    ;
    assert((r * l) / w <= shares) by (nonlinear_arith)
        requires
            r * l <= shares * w,
            w > 0,
    ;
}

/// Shares sold back for the liquidity that bought them never yield more: at
/// any rate but zero, `liquidity_for(shares_for(l)) <= l`.
pub proof fn lemma_liquidity_for_shares_for(rate: nat, liquidity: nat)
    requires
        rate > 0,
    ensures
        liquidity_for(rate, shares_for(rate, liquidity)) <= liquidity,
{
    let w = WAD as int;
    let r = rate as int;
    let l = liquidity as int;
    let t = (r * l) / w;
    assert(t == shares_for(rate, liquidity));
    assert(0 <= t && t * w <= r * l) by (nonlinear_arith)
        requires
            t == (r * l) / w,
            w > 0,
            r >= 0,
            l >= 0,
    ;
    let x = (t * w) * w;
    let q = x / r;
    assert(q <= l * w) by (nonlinear_arith)
        requires
            q == x / r,
            x == (t * w) * w,
            t * w <= r * l,
            r > 0,
            w > 0,
            t >= 0,
    ;
    assert(q / w <= l) by (nonlinear_arith)
        requires
            q <= l * w,
            w > 0,
    ;
}

/// Round trip from shares: whenever shares convert to liquidity, that
/// liquidity converts back, and to no more shares than there were.
pub proof fn lemma_round_trip_from_shares(rate: ExchangeRate, shares: u64)
    ensures
        rate.spec_lp_to_liquidity(shares) matches Ok(liquidity) ==> (rate.spec_liquidity_to_lp(
            liquidity,
        ) matches Ok(back) && back <= shares),
{
    if let Ok(liquidity) = rate.spec_lp_to_liquidity(shares) {
        lemma_shares_for_liquidity_for(rate.0@, shares as nat);
        assert(rate.0@ * liquidity <= shares * 1_000_000_000_000_000_000);
    }
}

/// Round trip from liquidity: whenever liquidity converts to shares and those
/// shares convert back, they are worth no more liquidity than there was; at
/// any rate but zero they do convert back.
pub proof fn lemma_round_trip_from_liquidity(rate: ExchangeRate, liquidity: u64)
    ensures
        rate.spec_liquidity_to_lp(liquidity) matches Ok(shares) ==> {
            &&& rate.spec_lp_to_liquidity(shares) matches Ok(back) ==> back <= liquidity
            &&& rate.0@ != 0 ==> rate.spec_lp_to_liquidity(shares) is Ok
        },
{
    if let Ok(shares) = rate.spec_liquidity_to_lp(liquidity) {
        if rate.0@ != 0 {
            lemma_liquidity_for_shares_for(rate.0@, liquidity as nat);
        }
    }
}

/// Counting modulo `n`: one more than `k` is, modulo `n`, zero where `k`
/// modulo `n` is `n - 1`, and one more than `k` modulo `n` elsewhere.
pub proof fn lemma_count_wraps(k: int, n: int)
    requires
        k >= 0,
        n > 0,
    ensures
        0 <= k % n < n,
        (k + 1) % n == if k % n + 1 == n {
            0
        } else {
            k % n + 1
        },
{
    vstd::arithmetic::div_mod::lemma_fundamental_div_mod(k, n);
    vstd::arithmetic::div_mod::lemma_mod_pos_bound(k, n);
    let q = k / n;
    let r = k % n;
    if r + 1 == n {
        assert(k + 1 == (q + 1) * n + 0) by (nonlinear_arith)
            requires
                k == n * q + r,
                r + 1 == n,
        ;
        vstd::arithmetic::div_mod::lemma_fundamental_div_mod_converse(k + 1, n, q + 1, 0);
    } else {
        assert(k + 1 == q * n + (r + 1)) by (nonlinear_arith)
            requires
                k == n * q + r,
        ;
        vstd::arithmetic::div_mod::lemma_fundamental_div_mod_converse(k + 1, n, q, r + 1);
    }
}

} // verus!
