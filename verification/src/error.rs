//! Failures that an operation on a pool can report.

use vstd::prelude::*;

verus! {

/// Every way in which an operation can be refused.
///
/// The first thirty-two variants are the pool's own failures, in the order of
/// their numeric codes. The last three stand for failures of the hosting
/// framework that the pool's rules can also raise: an operation whose payload
/// cannot be decoded, an account that breaks an unnamed constraint, and a
/// record that does not belong to the account that signs.
#[derive(Clone, Copy, Debug, PartialEq, Eq, Structural)]
pub enum PoleError {
    MathOverflow,
    InvalidPoolState,
    InvalidPoolConfig,
    InvalidPortObligationCollaterals,
    InvalidPortObligationLiquidity,
    PortDepositAmountTooSmall,
    InvalidTransaction,
    InvalidRedeem,
    PortNotSell,
    InvalidLiquidityWallet,
    InvalidLPMint,
    InvalidObligation,
    InvalidStakeAccount,
    InvalidPortLendingProgram,
    InvalidTokenProgram,
    InvalidStakingProgram,
    InvalidDexProgram,
    InvalidSwapProgram,
    DepositNotVerified,
    RedeemNotVerified,
    DepositAmountInvalid,
    RedeemAmountInvalid,
    LPMintAmountNotMatch,
    WrongWallet,
    InvalidFeeAccount,
    InvalidPortWallet,
    InvalidOwner,
    NotEnoughBalance,
    InvalidStakeOwner,
    ReserveStale,
    ObligationStale,
    MeetDepositLimit,
    InstructionDidNotDeserialize,
    ConstraintRaw,
    ConstraintHasOne,
}

/// Offset at which the pool's own failure codes start.
pub const ERROR_CODE_OFFSET: u32 = 300;

impl PoleError {
    /// Position of a variant in the declaration order.
    pub open spec fn ordinal(self) -> nat {
        match self {
            PoleError::MathOverflow => 0,
            PoleError::InvalidPoolState => 1,
            PoleError::InvalidPoolConfig => 2,
            PoleError::InvalidPortObligationCollaterals => 3,
            PoleError::InvalidPortObligationLiquidity => 4,
            PoleError::PortDepositAmountTooSmall => 5,
            PoleError::InvalidTransaction => 6,
            PoleError::InvalidRedeem => 7,
            PoleError::PortNotSell => 8,
            PoleError::InvalidLiquidityWallet => 9,
            PoleError::InvalidLPMint => 10,
            PoleError::InvalidObligation => 11,
            PoleError::InvalidStakeAccount => 12,
            PoleError::InvalidPortLendingProgram => 13,
            PoleError::InvalidTokenProgram => 14,
            PoleError::InvalidStakingProgram => 15,
            PoleError::InvalidDexProgram => 16,
            PoleError::InvalidSwapProgram => 17,
            PoleError::DepositNotVerified => 18,
            PoleError::RedeemNotVerified => 19,
            PoleError::DepositAmountInvalid => 20,
            PoleError::RedeemAmountInvalid => 21,
            PoleError::LPMintAmountNotMatch => 22,
            PoleError::WrongWallet => 23,
            PoleError::InvalidFeeAccount => 24,
            PoleError::InvalidPortWallet => 25,
            PoleError::InvalidOwner => 26,
            PoleError::NotEnoughBalance => 27,
            PoleError::InvalidStakeOwner => 28,
            PoleError::ReserveStale => 29,
            PoleError::ObligationStale => 30,
            PoleError::MeetDepositLimit => 31,
            PoleError::InstructionDidNotDeserialize => 32,
            PoleError::ConstraintRaw => 33,
            PoleError::ConstraintHasOne => 34,
        }
    }

    /// Whether the failure is one of the pool's own, with a code of its own.
    pub open spec fn is_own(self) -> bool {
        self.ordinal() < 32
    }

    /// Numeric code of one of the pool's own failures; `None` for the three
    /// failures that belong to the hosting framework.
    pub fn code(&self) -> (r: Option<u32>)
        ensures
            self.is_own() ==> r == Some((ERROR_CODE_OFFSET + self.ordinal()) as u32),
            !self.is_own() ==> r is None,
    {
        let index: u32 = match self {
            PoleError::MathOverflow => 0,
            PoleError::InvalidPoolState => 1,
            PoleError::InvalidPoolConfig => 2,
            PoleError::InvalidPortObligationCollaterals => 3,
            PoleError::InvalidPortObligationLiquidity => 4,
            PoleError::PortDepositAmountTooSmall => 5,
            PoleError::InvalidTransaction => 6,
            PoleError::InvalidRedeem => 7,
            PoleError::PortNotSell => 8,
            PoleError::InvalidLiquidityWallet => 9,
            PoleError::InvalidLPMint => 10,
            PoleError::InvalidObligation => 11,
            PoleError::InvalidStakeAccount => 12,
            PoleError::InvalidPortLendingProgram => 13,
            PoleError::InvalidTokenProgram => 14,
            PoleError::InvalidStakingProgram => 15,
            PoleError::InvalidDexProgram => 16,
            PoleError::InvalidSwapProgram => 17,
            PoleError::DepositNotVerified => 18,
            PoleError::RedeemNotVerified => 19,
            PoleError::DepositAmountInvalid => 20,
            PoleError::RedeemAmountInvalid => 21,
            PoleError::LPMintAmountNotMatch => 22,
            PoleError::WrongWallet => 23,
            PoleError::InvalidFeeAccount => 24,
            PoleError::InvalidPortWallet => 25,
            PoleError::InvalidOwner => 26,
            PoleError::NotEnoughBalance => 27,
            PoleError::InvalidStakeOwner => 28,
            PoleError::ReserveStale => 29,
            PoleError::ObligationStale => 30,
            PoleError::MeetDepositLimit => 31,
            PoleError::InstructionDidNotDeserialize => { return None; },
            PoleError::ConstraintRaw => { return None; },
            PoleError::ConstraintHasOne => { return None; },
        };
        Some(ERROR_CODE_OFFSET + index)
    }

    /// The message that goes with a failure.
    pub open spec fn spec_message(&self) -> Seq<char> {
        match self {
            PoleError::MathOverflow => "Math overflow"@,
            PoleError::InvalidPoolState => "Pool state is invalid"@,
            PoleError::InvalidPoolConfig => "Pool config is invalid"@,
            PoleError::InvalidPortObligationCollaterals => "Obligation collaterals are not those expected"@,
            PoleError::InvalidPortObligationLiquidity => "Obligation liquidities are not those expected"@,
            PoleError::PortDepositAmountTooSmall => "Deposit more!"@,
            PoleError::InvalidTransaction => "Invalid transaction supplied"@,
            PoleError::InvalidRedeem => "Invalid redeem instruction"@,
            PoleError::PortNotSell => "Call ClaimAndSell first"@,
            PoleError::InvalidLiquidityWallet => "InvalidLiquidityWallet"@,
            PoleError::InvalidLPMint => "InvalidLPMint"@,
            PoleError::InvalidObligation => "InvalidObligation"@,
            PoleError::InvalidStakeAccount => "InvalidStakeAccount"@,
            PoleError::InvalidPortLendingProgram => "InvalidPortLendingProgram"@,
            PoleError::InvalidTokenProgram => "InvalidTokenProgram"@,
            PoleError::InvalidStakingProgram => "InvalidStakingProgram"@,
            PoleError::InvalidDexProgram => "InvalidDexProgram"@,
            PoleError::InvalidSwapProgram => "InvalidSwapProgram"@,
            PoleError::DepositNotVerified => "DepositNotVerified"@,
            PoleError::RedeemNotVerified => "RedeemNotVerified"@,
            PoleError::DepositAmountInvalid => "DepositAmountInvalid"@,
            PoleError::RedeemAmountInvalid => "RedeemAmountInvalid"@,
            PoleError::LPMintAmountNotMatch => "LPMintAmountNotMatch"@,
            PoleError::WrongWallet => "WrongWallet"@,
            PoleError::InvalidFeeAccount => "InvalidFeeAccount"@,
            PoleError::InvalidPortWallet => "InvalidPortWallet"@,
            PoleError::InvalidOwner => "InvalidOwner"@,
            PoleError::NotEnoughBalance => "NotEnoughBalance"@,
            PoleError::InvalidStakeOwner => "InvalidStakeOwner"@,
            PoleError::ReserveStale => "ReserveStale, plz refresh"@,
            PoleError::ObligationStale => "ObligationStale, plz refresh"@,
            PoleError::MeetDepositLimit => "MeetDepositLimit"@,
            PoleError::InstructionDidNotDeserialize => "The program could not deserialize the given instruction"@,
            PoleError::ConstraintRaw => "A raw constraint was violated"@,
            PoleError::ConstraintHasOne => "A has one constraint was violated"@,
        }
    }

    /// The message that goes with a failure.
    pub fn message(&self) -> (r: &'static str)
        ensures
            r@ == self.spec_message(),
    {
        match self {
            PoleError::MathOverflow => "Math overflow",
            PoleError::InvalidPoolState => "Pool state is invalid",
            PoleError::InvalidPoolConfig => "Pool config is invalid",
            PoleError::InvalidPortObligationCollaterals => "Obligation collaterals are not those expected",
            PoleError::InvalidPortObligationLiquidity => "Obligation liquidities are not those expected",
            PoleError::PortDepositAmountTooSmall => "Deposit more!",
            PoleError::InvalidTransaction => "Invalid transaction supplied",
            PoleError::InvalidRedeem => "Invalid redeem instruction",
            PoleError::PortNotSell => "Call ClaimAndSell first",
            PoleError::InvalidLiquidityWallet => "InvalidLiquidityWallet",
            PoleError::InvalidLPMint => "InvalidLPMint",
            PoleError::InvalidObligation => "InvalidObligation",
            PoleError::InvalidStakeAccount => "InvalidStakeAccount",
            PoleError::InvalidPortLendingProgram => "InvalidPortLendingProgram",
            PoleError::InvalidTokenProgram => "InvalidTokenProgram",
            PoleError::InvalidStakingProgram => "InvalidStakingProgram",
            PoleError::InvalidDexProgram => "InvalidDexProgram",
            PoleError::InvalidSwapProgram => "InvalidSwapProgram",
            PoleError::DepositNotVerified => "DepositNotVerified",
            PoleError::RedeemNotVerified => "RedeemNotVerified",
            PoleError::DepositAmountInvalid => "DepositAmountInvalid",
            PoleError::RedeemAmountInvalid => "RedeemAmountInvalid",
            PoleError::LPMintAmountNotMatch => "LPMintAmountNotMatch",
            PoleError::WrongWallet => "WrongWallet",
            PoleError::InvalidFeeAccount => "InvalidFeeAccount",
            PoleError::InvalidPortWallet => "InvalidPortWallet",
            PoleError::InvalidOwner => "InvalidOwner",
            PoleError::NotEnoughBalance => "NotEnoughBalance",
            PoleError::InvalidStakeOwner => "InvalidStakeOwner",
            PoleError::ReserveStale => "ReserveStale, plz refresh",
            PoleError::ObligationStale => "ObligationStale, plz refresh",
            PoleError::MeetDepositLimit => "MeetDepositLimit",
            PoleError::InstructionDidNotDeserialize => "The program could not deserialize the given instruction",
            PoleError::ConstraintRaw => "A raw constraint was violated",
            PoleError::ConstraintHasOne => "A has one constraint was violated",
        }
    }
}

} // verus!
