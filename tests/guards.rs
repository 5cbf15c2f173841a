use solana_program::program_error::ProgramError;
use solana_program::pubkey::Pubkey;
use soon_guard::account::{AccountKey, AccountView};
use soon_guard::constants::MAX_CONTRACT_SIZE;
use soon_guard::error::GuardError;
use soon_guard::processor::Processor;
use soon_guard::utils;

fn key_of(pk: &Pubkey) -> AccountKey {
    AccountKey::new(pk.to_bytes())
}

fn view(key: AccountKey, owner: AccountKey, is_signer: bool, data_len: usize) -> AccountView {
    AccountView { key, owner, is_signer, data_len }
}

#[test]
fn test_check_account_owner() {
    let owner = key_of(&Pubkey::new_unique());
    let wrong_owner = key_of(&Pubkey::new_unique());

    assert!(GuardError::check_account_owner(&owner, &owner).is_ok());
    assert!(GuardError::check_account_owner(&owner, &wrong_owner).is_err());
}

#[test]
fn test_check_signer() {
    assert!(GuardError::check_signer(true).is_ok());
    assert!(GuardError::check_signer(false).is_err());
}

#[test]
fn test_check_buffer_size() {
    assert!(GuardError::check_buffer_size(100, 50).is_ok());
    assert!(GuardError::check_buffer_size(50, 100).is_err());
}

#[test]
fn test_error_conversion() {
    let guard_error = GuardError::InvalidInstructionData;
    let program_error = ProgramError::from(guard_error);
    assert!(matches!(program_error, ProgramError::Custom(_)));
}

#[test]
fn error_codes_are_distinct_positions() {
    let all = [
        GuardError::InvalidInstructionData,
        GuardError::InvalidAccountData,
        GuardError::UnauthorizedAccount,
        GuardError::InvalidTargetProgram,
        GuardError::InsufficientBufferSize,
        GuardError::AnalysisFailed,
        GuardError::MetricsRecordingFailed,
        GuardError::NetworkStatsUpdateFailed,
        GuardError::InitializationFailed,
        GuardError::RateLimitExceeded,
    ];
    for (i, e) in all.iter().enumerate() {
        assert_eq!(e.code(), i as u32);
        assert_eq!(ProgramError::from(*e), ProgramError::Custom(i as u32));
    }
}

#[test]
fn guard_errors_carry_their_codes() {
    assert_eq!(GuardError::check_signer(false), Err(ProgramError::Custom(2)));
    assert_eq!(GuardError::check_buffer_size(50, 100), Err(ProgramError::Custom(4)));
    assert!(GuardError::check_buffer_size(100, 100).is_ok());
    let a = AccountKey::new([1; 32]);
    let b = AccountKey::new([2; 32]);
    assert_eq!(GuardError::check_account_owner(&a, &b), Err(ProgramError::Custom(1)));
}

#[test]
fn test_invalid_program_id() {
    let zero_key = AccountKey::new([0; 32]);
    assert!(Processor::check_program_id(&zero_key).is_err());
    assert_eq!(Processor::check_program_id(&zero_key), Err(ProgramError::InvalidAccountData));
    let mut bytes = [0u8; 32];
    bytes[31] = 1;
    assert!(Processor::check_program_id(&AccountKey::new(bytes)).is_ok());
}

#[test]
fn test_validate_program_account() {
    let program_id = key_of(&Pubkey::new_unique());
    let account = view(key_of(&Pubkey::new_unique()), program_id, false, 1024);
    assert!(utils::validate_program_account(&account, &program_id).is_ok());

    let large_account = view(key_of(&Pubkey::new_unique()), program_id, false, MAX_CONTRACT_SIZE + 1);
    assert!(utils::validate_program_account(&large_account, &program_id).is_err());
}

#[test]
fn account_utilities_report_host_errors() {
    let program_id = AccountKey::new([7; 32]);
    let other = AccountKey::new([8; 32]);
    let account = view(other, other, false, 10);
    assert_eq!(utils::check_account_owner(&account, &program_id), Err(ProgramError::IllegalOwner));
    assert_eq!(utils::validate_program_account(&account, &program_id), Err(ProgramError::IllegalOwner));
    assert_eq!(utils::check_account_size(&account, 11), Err(ProgramError::AccountDataTooSmall));
    assert!(utils::check_account_size(&account, 10).is_ok());
    assert_eq!(utils::check_signer(&account), Err(ProgramError::MissingRequiredSignature));
    let signed = view(other, program_id, true, MAX_CONTRACT_SIZE);
    assert!(utils::check_signer(&signed).is_ok());
    assert!(utils::validate_program_account(&signed, &program_id).is_ok());
}
