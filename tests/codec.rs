use solana_program::program_error::ProgramError;
use soon_guard::instruction::GuardInstruction;

#[test]
fn test_instruction_packing() {
    let instruction = GuardInstruction::AnalyzeContract { data_size: 1000 };
    let packed = borsh::to_vec(&(0u8, 1000u64)).unwrap();
    assert_eq!(instruction.pack(), packed);
    let unpacked = GuardInstruction::unpack(&packed).unwrap();
    assert_eq!(instruction, unpacked);
}

#[test]
fn test_record_metrics_packing() {
    let instruction = GuardInstruction::RecordMetrics { gas_used: 50000, success: true };
    let packed = borsh::to_vec(&(1u8, 50000u64, true)).unwrap();
    assert_eq!(instruction.pack(), packed);
    let unpacked = GuardInstruction::unpack(&packed).unwrap();
    assert_eq!(instruction, unpacked);
}

#[test]
fn network_stats_round_trip() {
    let instruction = GuardInstruction::UpdateNetworkStats {
        transactions_per_second: 0x0102_0304_0506_0708,
        average_block_time: u64::MAX,
    };
    let packed = instruction.pack();
    assert_eq!(packed, borsh::to_vec(&(2u8, 0x0102_0304_0506_0708u64, u64::MAX)).unwrap());
    assert_eq!(packed.len(), 17);
    assert_eq!(GuardInstruction::unpack(&packed), Ok(instruction));
}

#[test]
fn pack_is_little_endian() {
    let packed = GuardInstruction::AnalyzeContract { data_size: 0x0102 }.pack();
    assert_eq!(packed, vec![0, 0x02, 0x01, 0, 0, 0, 0, 0, 0]);
    let packed = GuardInstruction::RecordMetrics { gas_used: 1, success: false }.pack();
    assert_eq!(packed, vec![1, 1, 0, 0, 0, 0, 0, 0, 0, 0]);
}

#[test]
fn empty_buffer_is_rejected() {
    assert_eq!(GuardInstruction::unpack(&[]), Err(ProgramError::InvalidInstructionData));
}

#[test]
fn unknown_discriminant_is_rejected() {
    let mut bytes = vec![3u8];
    bytes.extend_from_slice(&[0u8; 16]);
    assert_eq!(GuardInstruction::unpack(&bytes), Err(ProgramError::InvalidInstructionData));
}

#[test]
fn truncated_fields_are_rejected() {
    assert_eq!(GuardInstruction::unpack(&[0, 1, 2, 3, 4, 5, 6, 7]), Err(ProgramError::InvalidInstructionData));
    assert_eq!(
        GuardInstruction::unpack(&[1, 1, 0, 0, 0, 0, 0, 0, 0]),
        Err(ProgramError::InvalidInstructionData)
    );
    let mut bytes = vec![2u8];
    bytes.extend_from_slice(&[0u8; 15]);
    assert_eq!(GuardInstruction::unpack(&bytes), Err(ProgramError::InvalidInstructionData));
}

#[test]
fn nonzero_flag_is_true_and_trailing_bytes_ignored() {
    let bytes = [1u8, 5, 0, 0, 0, 0, 0, 0, 0, 7, 9, 9];
    assert_eq!(
        GuardInstruction::unpack(&bytes),
        Ok(GuardInstruction::RecordMetrics { gas_used: 5, success: true })
    );
}
