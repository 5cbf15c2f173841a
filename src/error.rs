//! The program's error taxonomy and the guards that produce it.
use crate::account::AccountKey;
use solana_program::program_error::ProgramError;
use vstd::prelude::*;

verus! {

/// The host's error type, `solana_program::program_error::ProgramError`: a plain
/// enum whose variants Verus reads as declared (unit variants, `Custom(u32)` and
/// `BorshIoError(String)`).
#[verifier::external_type_specification]
pub struct ExProgramError(ProgramError);

/// Errors of this program; each maps to a distinct custom error code.
#[derive(Debug, Clone, Copy, PartialEq, Eq, Structural)]
pub enum GuardError {
    /// Malformed or truncated instruction bytes, or an unknown discriminant.
    InvalidInstructionData,
    /// Ownership mismatch, oversized target binary or corrupted record bytes.
    InvalidAccountData,
    /// Missing signer or authority mismatch.
    UnauthorizedAccount,
    InvalidTargetProgram,
    InsufficientBufferSize,
    AnalysisFailed,
    MetricsRecordingFailed,
    NetworkStatsUpdateFailed,
    /// Reserved: no current logic produces it.
    InitializationFailed,
    /// Reserved: no current logic produces it.
    RateLimitExceeded,
}

/// The custom error code of each error: its position in the declaration.
pub open spec fn error_code(e: GuardError) -> u32 {
    match e {
        GuardError::InvalidInstructionData => 0,
        GuardError::InvalidAccountData => 1,
        GuardError::UnauthorizedAccount => 2,
        GuardError::InvalidTargetProgram => 3,
        GuardError::InsufficientBufferSize => 4,
        GuardError::AnalysisFailed => 5,
        GuardError::MetricsRecordingFailed => 6,
        GuardError::NetworkStatsUpdateFailed => 7,
        GuardError::InitializationFailed => 8,
        GuardError::RateLimitExceeded => 9,
    }
}

/// The host error that carries a guard error.
pub open spec fn program_error_of(e: GuardError) -> ProgramError {
    ProgramError::Custom(error_code(e))
}

impl GuardError {
    /// The custom error code of this error.
    pub fn code(&self) -> (r: u32)
        ensures
            r == error_code(*self),
    {
        match self {
            GuardError::InvalidInstructionData => 0,
            GuardError::InvalidAccountData => 1,
            GuardError::UnauthorizedAccount => 2,
            GuardError::InvalidTargetProgram => 3,
            GuardError::InsufficientBufferSize => 4,
            GuardError::AnalysisFailed => 5,
            GuardError::MetricsRecordingFailed => 6,
            GuardError::NetworkStatsUpdateFailed => 7,
            GuardError::InitializationFailed => 8,
            GuardError::RateLimitExceeded => 9,
        }
    }

    /// The host error that carries this error.
    pub fn to_program_error(&self) -> (r: ProgramError)
        ensures
            r == program_error_of(*self),
    {
        ProgramError::Custom(self.code())
    }

    /// Fails with `InvalidAccountData` unless a record's owner is the expected program.
    pub fn check_account_owner(account_owner: &AccountKey, expected_owner: &AccountKey) -> (r: Result<(), ProgramError>)
        ensures
            account_owner.bytes@ == expected_owner.bytes@ ==> r is Ok,
            account_owner.bytes@ != expected_owner.bytes@ ==> r == Err::<(), ProgramError>(
                program_error_of(GuardError::InvalidAccountData),
            ),
    {
        if !account_owner.same_as(expected_owner) {
            Err(GuardError::InvalidAccountData.to_program_error())
        } else {
            Ok(())
        }
    }

    /// Fails with `UnauthorizedAccount` unless the authority signed.
    pub fn check_signer(is_signer: bool) -> (r: Result<(), ProgramError>)
        ensures
            is_signer ==> r is Ok,
            !is_signer ==> r == Err::<(), ProgramError>(program_error_of(GuardError::UnauthorizedAccount)),
    {
        if !is_signer {
            Err(GuardError::UnauthorizedAccount.to_program_error())
        } else {
            Ok(())
        }
    }

    /// Fails with `InsufficientBufferSize` when `actual` is below `required`.
    pub fn check_buffer_size(actual: usize, required: usize) -> (r: Result<(), ProgramError>)
        ensures
            actual >= required ==> r is Ok,
            actual < required ==> r == Err::<(), ProgramError>(program_error_of(GuardError::InsufficientBufferSize)),
    {
        if actual < required {
            Err(GuardError::InsufficientBufferSize.to_program_error())
        } else {
            Ok(())
        }
    }
}

impl From<GuardError> for ProgramError {
    fn from(e: GuardError) -> (r: ProgramError)
        ensures
            r == program_error_of(e),
    {
        e.to_program_error()
    }
}

impl vstd::std_specs::convert::FromSpecImpl<GuardError> for ProgramError {
    open spec fn obeys_from_spec() -> bool {
        true
    }

    open spec fn from_spec(e: GuardError) -> ProgramError {
        program_error_of(e)
    }
}

} // verus!
