use solana_program::program_error::ProgramError;
use solana_program::pubkey::Pubkey;
use soon_guard::account::{AccountKey, AccountView};
use soon_guard::instruction::GuardInstruction;
use soon_guard::processor::{Finding, Processor};
use soon_guard::state::{AnalysisStatus, MetricsState, ProgramState, SecurityAnalysisState};

fn view(key: AccountKey, owner: AccountKey, is_signer: bool, data_len: usize) -> AccountView {
    AccountView { key, owner, is_signer, data_len }
}

fn analyze_accounts(program_id: AccountKey) -> Vec<AccountView> {
    vec![
        view(AccountKey::new([10; 32]), program_id, false, 100),
        view(AccountKey::new([11; 32]), program_id, false, 1000),
        view(AccountKey::new([12; 32]), program_id, true, 0),
        view(AccountKey::new([13; 32]), program_id, false, 1000),
    ]
}

#[test]
fn test_analyze_contract() {
    let program_id = AccountKey::new(Pubkey::new_unique().to_bytes());
    let accounts = analyze_accounts(program_id);
    let program_data = vec![0u8; 100];
    let state = Processor::load_or_init_analysis(None, &accounts[0].key, 1000);
    let result = Processor::process_analyze_contract(&program_id, &accounts, 100, &program_data, state, 1000);
    assert!(result.is_ok());
    let state = result.unwrap();
    assert_eq!(state.risk_score, 100);
    assert_eq!(state.vulnerability_count, 0);
    assert_eq!(state.status, AnalysisStatus::Completed);
    assert_eq!(state.target_program, accounts[0].key);
}

#[test]
fn test_suspicious_patterns() {
    let safe_data = vec![0x90, 0x90, 0x90, 0x90];
    let unsafe_data = vec![0x48, 0x31, 0xc0, 0x90];

    assert!(!Processor::check_suspicious_patterns(&safe_data));
    assert!(Processor::check_suspicious_patterns(&unsafe_data));
}

#[test]
fn tight_loop_is_suspicious() {
    assert!(Processor::check_suspicious_patterns(&[0x00, 0xeb, 0xfe]));
    assert!(!Processor::check_suspicious_patterns(&[0xfe, 0xeb]));
    assert!(!Processor::check_suspicious_patterns(&[0x48, 0x31, 0xc0]));
    assert!(!Processor::check_suspicious_patterns(&[]));
}

#[test]
fn test_resource_usage() {
    let low_usage = vec![0x90, 0x90];
    // One memory operation stays well below the limit of 500.
    let high_usage = vec![0x48, 0x89, 255];

    assert!(!Processor::check_resource_usage(&low_usage));
    assert!(!Processor::check_resource_usage(&high_usage));
}

#[test]
fn resource_limits_are_exceeded_strictly() {
    let mut at_limit = Vec::new();
    for _ in 0..500 {
        at_limit.extend_from_slice(&[0x48, 0x89]);
    }
    assert!(!Processor::check_resource_usage(&at_limit));
    at_limit.extend_from_slice(&[0x48, 0x89]);
    assert!(Processor::check_resource_usage(&at_limit));

    let mut calls = vec![0xe8u8; 1001];
    assert!(!Processor::check_resource_usage(&calls));
    calls.push(0x00);
    assert!(Processor::check_resource_usage(&calls));
}

#[test]
fn suspicious_buffer_scores_eighty_five() {
    let data = [0x48, 0x31, 0xc0, 0x90];
    assert!(Processor::check_suspicious_patterns(&data));
    let (score, findings) = Processor::assess(&data, 100);
    assert_eq!(score, 85);
    assert_eq!(findings, vec![Finding::SuspiciousPatterns]);

    let program_id = AccountKey::new([1; 32]);
    let accounts = analyze_accounts(program_id);
    let state = Processor::load_or_init_analysis(None, &accounts[0].key, 5);
    let state = Processor::process_analyze_contract(&program_id, &accounts, 100, &data, state, 5).unwrap();
    assert_eq!(state.risk_score, 85);
    assert_eq!(state.vulnerability_count, 1);
}

#[test]
fn oversized_buffer_scores_ninety() {
    let data = vec![0u8; 101];
    let (score, findings) = Processor::assess(&data, 100);
    assert_eq!(score, 90);
    assert_eq!(findings.len(), 1);
    assert_eq!(findings[0].description(), "Program size exceeds limit");
}

#[test]
fn all_findings_in_order() {
    let mut data = vec![0xeb, 0xfe];
    for _ in 0..501 {
        data.extend_from_slice(&[0x48, 0x89]);
    }
    let (score, findings) = Processor::assess(&data, 10);
    assert_eq!(score, 55);
    assert_eq!(findings, vec![Finding::SizeExceeded, Finding::SuspiciousPatterns, Finding::ResourceExhaustion]);
}

#[test]
fn analysis_guards() {
    let program_id = AccountKey::new([1; 32]);
    let op = GuardInstruction::AnalyzeContract { data_size: 1 };
    let accounts = analyze_accounts(program_id);
    assert!(Processor::authorize(&program_id, &op, &accounts).is_ok());
    assert_eq!(Processor::authorize(&program_id, &op, &accounts[..3]), Err(ProgramError::NotEnoughAccountKeys));

    let mut unsigned = accounts.clone();
    unsigned[2].is_signer = false;
    assert_eq!(Processor::authorize(&program_id, &op, &unsigned), Err(ProgramError::Custom(2)));

    let mut foreign = accounts.clone();
    foreign[3].owner = AccountKey::new([9; 32]);
    assert_eq!(Processor::authorize(&program_id, &op, &foreign), Err(ProgramError::Custom(1)));
    let state = SecurityAnalysisState::new(AccountKey::new([10; 32]), 0);
    assert_eq!(
        Processor::process_analyze_contract(&program_id, &foreign, 1, &[], state, 0).err(),
        Some(ProgramError::Custom(1))
    );
}

#[test]
fn corrupted_analysis_record_is_rejected() {
    let program_id = AccountKey::new([1; 32]);
    let accounts = analyze_accounts(program_id);
    let mut state = SecurityAnalysisState::new(AccountKey::new([10; 32]), 0);
    state.risk_score = 101;
    assert!(!state.is_well_formed());
    assert_eq!(
        Processor::process_analyze_contract(&program_id, &accounts, 1, &[], state, 0).err(),
        Some(ProgramError::Custom(1))
    );
}

#[test]
fn metrics_operation() {
    let program_id = AccountKey::new([1; 32]);
    let accounts = vec![
        view(AccountKey::new([2; 32]), program_id, false, 0),
        view(AccountKey::new([3; 32]), AccountKey::new([0; 32]), true, 0),
    ];
    let state = Processor::load_or_init_metrics(None, 9);
    let state = Processor::process_record_metrics(&program_id, &accounts, 1000, true, state, 9).unwrap();
    let state = Processor::process_record_metrics(&program_id, &accounts, 2000, false, state, 10).unwrap();
    assert_eq!(state.avg_gas_used, 1500);
    assert_eq!(state.success_rate, 50);

    let unsigned = vec![accounts[0], view(AccountKey::new([3; 32]), program_id, false, 0)];
    assert_eq!(
        Processor::process_record_metrics(&program_id, &unsigned, 1, true, MetricsState::new(0), 0).err(),
        Some(ProgramError::Custom(2))
    );
    let mut bad = MetricsState::new(0);
    bad.avg_gas_used = 3;
    assert_eq!(
        Processor::process_record_metrics(&program_id, &accounts, 1, true, bad, 0).err(),
        Some(ProgramError::Custom(1))
    );
}

#[test]
fn network_operation_requires_stored_authority() {
    let program_id = AccountKey::new([1; 32]);
    let authority = AccountKey::new([3; 32]);
    let accounts = vec![view(AccountKey::new([2; 32]), program_id, false, 0), view(authority, program_id, true, 0)];
    let state = Processor::load_or_init_network(None, &authority, 4);
    let state = Processor::process_update_network_stats(&program_id, &accounts, 1000, 400, state, 6).unwrap();
    assert_eq!(state.transactions_per_second, 1000);
    assert_eq!(state.average_block_time, 400);
    assert_eq!(state.last_updated, 6);
    assert_eq!(state.initialized_at, 4);

    let intruder = vec![accounts[0], view(AccountKey::new([4; 32]), program_id, true, 0)];
    let stored = ProgramState::new(authority, 4);
    assert_eq!(
        Processor::process_update_network_stats(&program_id, &intruder, 1, 1, stored, 7).err(),
        Some(ProgramError::Custom(2))
    );
    assert_eq!(
        Processor::process_update_network_stats(&program_id, &accounts[..1], 1, 1, ProgramState::new(authority, 4), 7)
            .err(),
        Some(ProgramError::NotEnoughAccountKeys)
    );
}
