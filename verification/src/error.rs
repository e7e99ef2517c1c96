use vstd::prelude::*;

verus! {

/// Typed failures of the escrow. Each variant has a stable numeric code
/// (see [`EscrowError::code`]); codes are append-only.
#[derive(Clone, Copy, Debug, PartialEq, Eq, Structural)]
pub enum EscrowError {
    AmountMustBePositive,
    YieldBpsOutOfRange,
    EscrowAlreadyInitialized,
    InvoiceIdInvalidLength,
    InvoiceIdInvalidCharset,
    MinContributionNotPositive,
    MinContributionExceedsAmount,
    MaxUniqueInvestorsNotPositive,
    MaxPerInvestorNotPositive,
    TierYieldOutOfRange,
    TierYieldBelowBase,
    TierLockNotIncreasing,
    TierYieldNotNonDecreasing,
    EscrowNotInitialized,
    FundingTokenNotSet,
    TreasuryNotSet,
    LegalHoldBlocksTreasuryDustSweep,
    SweepAmountNotPositive,
    SweepAmountExceedsMax,
    DustSweepNotTerminal,
    NoFundingTokenBalanceToSweep,
    EffectiveSweepAmountZero,
    TransferAmountNotPositive,
    InsufficientTokenBalanceBeforeTransfer,
    SenderBalanceUnderflow,
    RecipientBalanceUnderflow,
    SenderBalanceDeltaMismatch,
    RecipientBalanceDeltaMismatch,
    TokenBalanceReadFailed,
    TokenTransferFailed,
    TokenNotContract,
    SweepExceedsLiabilityFloor,
    PrimaryAttestationAlreadyBound,
    AttestationAppendLogCapacityReached,
    CollateralAmountNotPositive,
    CollateralAssetEmpty,
    CollateralTimestampBackwards,
    InvestorBatchEmpty,
    InvestorBatchTooLarge,
    TargetNotPositive,
    TargetUpdateNotOpen,
    TargetBelowFundedAmount,
    CapLowerNotOpen,
    NoInvestorCapConfigured,
    NewCapNotLower,
    NewCapBelowCurrentFunderCount,
    MaturityUpdateNotOpen,
    NewAdminSameAsCurrent,
    NoPendingAdmin,
    LegalHoldBlocksBeneficiaryRotation,
    RotationNotOpen,
    NewSmeSameAsCurrent,
    MaturityUnchanged,
    MigrationVersionMismatch,
    AlreadyCurrentSchemaVersion,
    NoMigrationPath,
    FundingAmountNotPositive,
    FundingBelowMinContribution,
    LegalHoldBlocksFunding,
    EscrowNotOpenForFunding,
    InvestorNotAllowlisted,
    InvestorContributionOverflow,
    InvestorContributionExceedsCap,
    UniqueInvestorCapReached,
    TieredSecondDeposit,
    InvestorClaimTimeOverflow,
    FundedAmountOverflow,
    LegalHoldBlocksSettlement,
    SettlementNotFunded,
    MaturityNotReached,
    LegalHoldBlocksWithdrawal,
    WithdrawalNotFunded,
    LegalHoldBlocksInvestorClaims,
    NoContributionToClaim,
    InvestorClaimNotSettled,
    InvestorCommitmentLockNotExpired,
    ComputePayoutArithmeticOverflow,
    InsufficientContractBalance,
    LegalHoldBlocksCancelFunding,
    CancelFundingNotOpen,
    RefundNotCancelled,
    NoContributionToRefund,
    PayoutZero,
}

/// The stable numeric code of each error.
pub open spec fn error_code(e: EscrowError) -> u32 {
    match e {
        EscrowError::AmountMustBePositive => 1,
        EscrowError::YieldBpsOutOfRange => 2,
        EscrowError::EscrowAlreadyInitialized => 3,
        EscrowError::InvoiceIdInvalidLength => 4,
        EscrowError::InvoiceIdInvalidCharset => 5,
        EscrowError::MinContributionNotPositive => 6,
        EscrowError::MinContributionExceedsAmount => 7,
        EscrowError::MaxUniqueInvestorsNotPositive => 8,
        EscrowError::MaxPerInvestorNotPositive => 9,
        EscrowError::TierYieldOutOfRange => 10,
        EscrowError::TierYieldBelowBase => 11,
        EscrowError::TierLockNotIncreasing => 12,
        EscrowError::TierYieldNotNonDecreasing => 13,
        EscrowError::EscrowNotInitialized => 20,
        EscrowError::FundingTokenNotSet => 21,
        EscrowError::TreasuryNotSet => 22,
        EscrowError::LegalHoldBlocksTreasuryDustSweep => 30,
        EscrowError::SweepAmountNotPositive => 31,
        EscrowError::SweepAmountExceedsMax => 32,
        EscrowError::DustSweepNotTerminal => 33,
        EscrowError::NoFundingTokenBalanceToSweep => 34,
        EscrowError::EffectiveSweepAmountZero => 35,
        EscrowError::TransferAmountNotPositive => 36,
        EscrowError::InsufficientTokenBalanceBeforeTransfer => 37,
        EscrowError::SenderBalanceUnderflow => 38,
        EscrowError::RecipientBalanceUnderflow => 39,
        EscrowError::SenderBalanceDeltaMismatch => 40,
        EscrowError::RecipientBalanceDeltaMismatch => 41,
        EscrowError::TokenBalanceReadFailed => 43,
        EscrowError::TokenTransferFailed => 44,
        EscrowError::TokenNotContract => 45,
        EscrowError::SweepExceedsLiabilityFloor => 42,
        EscrowError::PrimaryAttestationAlreadyBound => 50,
        EscrowError::AttestationAppendLogCapacityReached => 51,
        EscrowError::CollateralAmountNotPositive => 60,
        EscrowError::CollateralAssetEmpty => 61,
        EscrowError::CollateralTimestampBackwards => 62,
        EscrowError::InvestorBatchEmpty => 70,
        EscrowError::InvestorBatchTooLarge => 71,
        EscrowError::TargetNotPositive => 72,
        EscrowError::TargetUpdateNotOpen => 73,
        EscrowError::TargetBelowFundedAmount => 74,
        EscrowError::CapLowerNotOpen => 75,
        EscrowError::NoInvestorCapConfigured => 76,
        EscrowError::NewCapNotLower => 77,
        EscrowError::NewCapBelowCurrentFunderCount => 78,
        EscrowError::MaturityUpdateNotOpen => 79,
        EscrowError::NewAdminSameAsCurrent => 80,
        EscrowError::NoPendingAdmin => 81,
        EscrowError::LegalHoldBlocksBeneficiaryRotation => 82,
        EscrowError::RotationNotOpen => 83,
        EscrowError::NewSmeSameAsCurrent => 84,
        EscrowError::MaturityUnchanged => 85,
        EscrowError::MigrationVersionMismatch => 90,
        EscrowError::AlreadyCurrentSchemaVersion => 91,
        EscrowError::NoMigrationPath => 92,
        EscrowError::FundingAmountNotPositive => 100,
        EscrowError::FundingBelowMinContribution => 101,
        EscrowError::LegalHoldBlocksFunding => 102,
        EscrowError::EscrowNotOpenForFunding => 103,
        EscrowError::InvestorNotAllowlisted => 104,
        EscrowError::InvestorContributionOverflow => 105,
        EscrowError::InvestorContributionExceedsCap => 106,
        EscrowError::UniqueInvestorCapReached => 107,
        EscrowError::TieredSecondDeposit => 108,
        EscrowError::InvestorClaimTimeOverflow => 109,
        EscrowError::FundedAmountOverflow => 110,
        EscrowError::LegalHoldBlocksSettlement => 120,
        EscrowError::SettlementNotFunded => 121,
        EscrowError::MaturityNotReached => 122,
        EscrowError::LegalHoldBlocksWithdrawal => 123,
        EscrowError::WithdrawalNotFunded => 124,
        EscrowError::LegalHoldBlocksInvestorClaims => 125,
        EscrowError::NoContributionToClaim => 126,
        EscrowError::InvestorClaimNotSettled => 127,
        EscrowError::InvestorCommitmentLockNotExpired => 128,
        EscrowError::ComputePayoutArithmeticOverflow => 129,
        EscrowError::InsufficientContractBalance => 130,
        EscrowError::LegalHoldBlocksCancelFunding => 140,
        EscrowError::CancelFundingNotOpen => 141,
        EscrowError::RefundNotCancelled => 142,
        EscrowError::NoContributionToRefund => 143,
        EscrowError::PayoutZero => 165,
    }
}

/// Two distinct errors never share a code.
pub proof fn error_codes_are_unique(a: EscrowError, b: EscrowError)
    ensures
        error_code(a) == error_code(b) ==> a == b,
{
}

impl EscrowError {
    /// The stable numeric code surfaced to clients as `ContractError(code)`.
    pub fn code(&self) -> (c: u32)
        ensures
            c == error_code(*self),
    {
        match self {
            EscrowError::AmountMustBePositive => 1,
            EscrowError::YieldBpsOutOfRange => 2,
            EscrowError::EscrowAlreadyInitialized => 3,
            EscrowError::InvoiceIdInvalidLength => 4,
            EscrowError::InvoiceIdInvalidCharset => 5,
            EscrowError::MinContributionNotPositive => 6,
            EscrowError::MinContributionExceedsAmount => 7,
            EscrowError::MaxUniqueInvestorsNotPositive => 8,
            EscrowError::MaxPerInvestorNotPositive => 9,
            EscrowError::TierYieldOutOfRange => 10,
            EscrowError::TierYieldBelowBase => 11,
            EscrowError::TierLockNotIncreasing => 12,
            EscrowError::TierYieldNotNonDecreasing => 13,
            EscrowError::EscrowNotInitialized => 20,
            EscrowError::FundingTokenNotSet => 21,
            EscrowError::TreasuryNotSet => 22,
            EscrowError::LegalHoldBlocksTreasuryDustSweep => 30,
            EscrowError::SweepAmountNotPositive => 31,
            EscrowError::SweepAmountExceedsMax => 32,
            EscrowError::DustSweepNotTerminal => 33,
            EscrowError::NoFundingTokenBalanceToSweep => 34,
            EscrowError::EffectiveSweepAmountZero => 35,
            EscrowError::TransferAmountNotPositive => 36,
            EscrowError::InsufficientTokenBalanceBeforeTransfer => 37,
            EscrowError::SenderBalanceUnderflow => 38,
            EscrowError::RecipientBalanceUnderflow => 39,
            EscrowError::SenderBalanceDeltaMismatch => 40,
            EscrowError::RecipientBalanceDeltaMismatch => 41,
            EscrowError::TokenBalanceReadFailed => 43,
            EscrowError::TokenTransferFailed => 44,
            EscrowError::TokenNotContract => 45,
            EscrowError::SweepExceedsLiabilityFloor => 42,
            EscrowError::PrimaryAttestationAlreadyBound => 50,
            EscrowError::AttestationAppendLogCapacityReached => 51,
            EscrowError::CollateralAmountNotPositive => 60,
            EscrowError::CollateralAssetEmpty => 61,
            EscrowError::CollateralTimestampBackwards => 62,
            EscrowError::InvestorBatchEmpty => 70,
            EscrowError::InvestorBatchTooLarge => 71,
            EscrowError::TargetNotPositive => 72,
            EscrowError::TargetUpdateNotOpen => 73,
            EscrowError::TargetBelowFundedAmount => 74,
            EscrowError::CapLowerNotOpen => 75,
            EscrowError::NoInvestorCapConfigured => 76,
            EscrowError::NewCapNotLower => 77,
            EscrowError::NewCapBelowCurrentFunderCount => 78,
            EscrowError::MaturityUpdateNotOpen => 79,
            EscrowError::NewAdminSameAsCurrent => 80,
            EscrowError::NoPendingAdmin => 81,
            EscrowError::LegalHoldBlocksBeneficiaryRotation => 82,
            EscrowError::RotationNotOpen => 83,
            EscrowError::NewSmeSameAsCurrent => 84,
            EscrowError::MaturityUnchanged => 85,
            EscrowError::MigrationVersionMismatch => 90,
            EscrowError::AlreadyCurrentSchemaVersion => 91,
            EscrowError::NoMigrationPath => 92,
            EscrowError::FundingAmountNotPositive => 100,
            EscrowError::FundingBelowMinContribution => 101,
            EscrowError::LegalHoldBlocksFunding => 102,
            EscrowError::EscrowNotOpenForFunding => 103,
            EscrowError::InvestorNotAllowlisted => 104,
            EscrowError::InvestorContributionOverflow => 105,
            EscrowError::InvestorContributionExceedsCap => 106,
            EscrowError::UniqueInvestorCapReached => 107,
            EscrowError::TieredSecondDeposit => 108,
            EscrowError::InvestorClaimTimeOverflow => 109,
            EscrowError::FundedAmountOverflow => 110,
            EscrowError::LegalHoldBlocksSettlement => 120,
            EscrowError::SettlementNotFunded => 121,
            EscrowError::MaturityNotReached => 122,
            EscrowError::LegalHoldBlocksWithdrawal => 123,
            EscrowError::WithdrawalNotFunded => 124,
            EscrowError::LegalHoldBlocksInvestorClaims => 125,
            EscrowError::NoContributionToClaim => 126,
            EscrowError::InvestorClaimNotSettled => 127,
            EscrowError::InvestorCommitmentLockNotExpired => 128,
            EscrowError::ComputePayoutArithmeticOverflow => 129,
            EscrowError::InsufficientContractBalance => 130,
            EscrowError::LegalHoldBlocksCancelFunding => 140,
            EscrowError::CancelFundingNotOpen => 141,
            EscrowError::RefundNotCancelled => 142,
            EscrowError::NoContributionToRefund => 143,
            EscrowError::PayoutZero => 165,
        }
    }
}

} // verus!
