use vstd::prelude::*;

verus! {

/// Every way an instruction can fail.
#[derive(Debug, Clone, Copy, PartialEq, Eq, Structural)]
pub enum PimeError {
    IncorrectProgramId,
    IncorrectPDA,
    InvalidTokenProgram,
    UnsupportedTokenProgram,
    IllegalOwner,
    UninitializedAccount,
    AccountAlreadyInitialized,
    AccountDataTooSmall,
    InvalidAccountData,
    Immutable,
    MissingRequiredSignature,
    NotEnoughAccountKeys,
    WithdrawLimitReachedAmount,
    WithdrawLimitReachedTransactions,
    VaultWarmupViolation,
    TransfersNotAllowed,
    InsufficientFunds,
    VaultHasOpenTransfers,
    VaultIsNotEmpty,
    DestinationMismatch,
    TransferWarmingUp,
    TransferExpired,
    InvalidInstructionData,
    ArithmeticOverflow,
}

/// The custom error code reported for `e`.
pub open spec fn error_code(e: PimeError) -> u32 {
    match e {
        PimeError::IncorrectProgramId => 0,
        PimeError::IncorrectPDA => 1,
        PimeError::InvalidTokenProgram => 2,
        PimeError::UnsupportedTokenProgram => 3,
        PimeError::IllegalOwner => 4,
        PimeError::UninitializedAccount => 5,
        PimeError::AccountAlreadyInitialized => 6,
        PimeError::AccountDataTooSmall => 7,
        PimeError::InvalidAccountData => 8,
        PimeError::Immutable => 9,
        PimeError::MissingRequiredSignature => 10,
        PimeError::NotEnoughAccountKeys => 11,
        PimeError::WithdrawLimitReachedAmount => 12,
        PimeError::WithdrawLimitReachedTransactions => 13,
        PimeError::VaultWarmupViolation => 14,
        PimeError::TransfersNotAllowed => 15,
        PimeError::InsufficientFunds => 16,
        PimeError::VaultHasOpenTransfers => 17,
        PimeError::VaultIsNotEmpty => 18,
        PimeError::DestinationMismatch => 19,
        PimeError::TransferWarmingUp => 20,
        PimeError::TransferExpired => 21,
        PimeError::InvalidInstructionData => 22,
        PimeError::ArithmeticOverflow => 23,
    }
}

impl PimeError {
    /// The custom error code the program reports for this error.
    pub fn code(&self) -> (r: u32)
        ensures
            r == error_code(*self),
    {
        match self {
            PimeError::IncorrectProgramId => 0,
            PimeError::IncorrectPDA => 1,
            PimeError::InvalidTokenProgram => 2,
            PimeError::UnsupportedTokenProgram => 3,
            PimeError::IllegalOwner => 4,
            PimeError::UninitializedAccount => 5,
            PimeError::AccountAlreadyInitialized => 6,
            PimeError::AccountDataTooSmall => 7,
            PimeError::InvalidAccountData => 8,
            PimeError::Immutable => 9,
            PimeError::MissingRequiredSignature => 10,
            PimeError::NotEnoughAccountKeys => 11,
            PimeError::WithdrawLimitReachedAmount => 12,
            PimeError::WithdrawLimitReachedTransactions => 13,
            PimeError::VaultWarmupViolation => 14,
            PimeError::TransfersNotAllowed => 15,
            PimeError::InsufficientFunds => 16,
            PimeError::VaultHasOpenTransfers => 17,
            PimeError::VaultIsNotEmpty => 18,
            PimeError::DestinationMismatch => 19,
            PimeError::TransferWarmingUp => 20,
            PimeError::TransferExpired => 21,
            PimeError::InvalidInstructionData => 22,
            PimeError::ArithmeticOverflow => 23,
        }
    }
}

} // verus!
