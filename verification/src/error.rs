//! Error taxonomy of the staking pool.
//!
//! Every fallible operation of the library reports one of these conditions.
//! They fall into five groups: arithmetic failures, capacity limits,
//! staleness or ordering conflicts, policy violations, and integrity
//! violations (an externally observed token supply exceeding the internally
//! tracked one).

use vstd::prelude::*;

verus! {

#[derive(Clone, Copy, Debug, PartialEq, Eq, Structural)]
pub enum StakingError {
    WrongReserveOwner,
    NonEmptyReserveData,
    InvalidInitialReserveLamports,
    ZeroValidatorChunkSize,
    TooBigValidatorChunkSize,
    ZeroCreditChunkSize,
    TooBigCreditChunkSize,
    TooLowCreditFee,
    InvalidMintAuthority,
    MintHasInitialSupply,
    InvalidOwnerFeeState,
    InvalidProgramId,
    UnexpectedAccount,
    CalculationFailure,
    StakeAccountWithLockup,
    MinStakeIsTooLow,
    LpMaxFeeIsTooHigh,
    BasisPointsOverflow,
    LpFeesAreWrongWayRound,
    LiquidityTargetTooLow,
    TicketNotDue,
    TicketNotReady,
    WrongBeneficiary,
    StakeAccountNotUpdatedYet,
    StakeNotDelegated,
    StakeAccountIsEmergencyUnstaking,
    InsufficientLiquidity,
    NotUsed6027,
    InvalidAdminAuthority,
    InvalidValidatorManager,
    InvalidStakeListDiscriminator,
    InvalidValidatorListDiscriminator,
    TreasuryCutIsTooHigh,
    RewardsFeeIsTooHigh,
    StakingIsCapped,
    LiquidityIsCapped,
    UpdateWindowIsTooLow,
    MinWithdrawIsTooHigh,
    WithdrawAmountIsTooLow,
    DepositAmountIsTooLow,
    NotEnoughUserFunds,
    WrongTokenOwnerOrDelegate,
    TooEarlyForStakeDelta,
    RequiredDelegatedStake,
    RequiredActiveStake,
    RequiredDeactivatingStake,
    DepositingNotActivatedStake,
    TooLowDelegationInDepositingStake,
    WrongStakeBalance,
    WrongValidatorAccountOrIndex,
    WrongStakeAccountOrIndex,
    UnstakingOnPositiveDelta,
    StakingOnNegativeDelta,
    MovingStakeIsCapped,
    StakeMustBeUninitialized,
    DestinationStakeMustBeDelegated,
    DestinationStakeMustNotBeDeactivating,
    DestinationStakeMustBeUpdated,
    InvalidDestinationStakeDelegation,
    SourceStakeMustBeDelegated,
    SourceStakeMustNotBeDeactivating,
    SourceStakeMustBeUpdated,
    InvalidSourceStakeDelegation,
    InvalidDelayedUnstakeTicket,
    ReusingDelayedUnstakeTicket,
    EmergencyUnstakingFromNonZeroScoredValidator,
    WrongValidatorDuplicationFlag,
    RedepositingPoolStake,
    RemovingValidatorWithBalance,
    RedelegateOverTarget,
    SourceAndDestValidatorsAreTheSame,
    UnregisteredMsolMinted,
    UnregisteredLPMinted,
    ListIndexOutOfBounds,
    ListOverflow,
    AlreadyPaused,
    NotPaused,
    ProgramIsPaused,
    InvalidPauseAuthority,
    SelectedStakeAccountHasNotEnoughFunds,
    BasisPointCentsOverflow,
    WithdrawStakeAccountIsNotEnabled,
    WithdrawStakeAccountFeeIsTooHigh,
    DelayedUnstakeFeeIsTooHigh,
    WithdrawStakeLamportsIsTooLow,
    StakeAccountRemainderTooLow,
    ShrinkingListWithDeletingContents,
    MathOverflow,
    UnauthorizedOrExploitedLPMinting,
    /// A record list's backing region is smaller than the list header.
    AccountDataTooSmall,
    /// A token mint unexpectedly carries a freeze authority.
    FreezeAuthoritySet,
    /// A token account belongs to a different mint than required.
    WrongTokenMint,
}

} // verus!
