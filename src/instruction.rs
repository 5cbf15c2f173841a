//! The three operations and their wire format: a discriminant byte followed by
//! little-endian fixed-width fields in declaration order.
use solana_program::program_error::ProgramError;
use vstd::prelude::*;

verus! {

/// An operation of the program.
#[derive(Debug, Clone, Copy, PartialEq, Eq, Structural)]
pub enum GuardInstruction {
    /// Analyzes a program binary. Accounts: target binary (read), analysis record
    /// (write), authority (signer), network record (read).
    AnalyzeContract {
        /// Size ceiling for the analysed binary.
        data_size: u64,
    },
    /// Records one transaction's gas and outcome. Accounts: metrics record (write),
    /// authority (signer).
    RecordMetrics { gas_used: u64, success: bool },
    /// Updates the network health indicators. Accounts: network record (write),
    /// authority (signer).
    UpdateNetworkStats { transactions_per_second: u64, average_block_time: u64 },
}

/// The eight little-endian bytes of `v`.
pub open spec fn le_bytes(v: u64) -> Seq<u8> {
    seq![
        v as u8,
        (v >> 8u64) as u8,
        (v >> 16u64) as u8,
        (v >> 24u64) as u8,
        (v >> 32u64) as u8,
        (v >> 40u64) as u8,
        (v >> 48u64) as u8,
        (v >> 56u64) as u8,
    ]
}

/// The value of the eight little-endian bytes of `b` from `at` on.
pub open spec fn le_value(b: Seq<u8>, at: int) -> u64 {
    (b[at] as u64) | ((b[at + 1] as u64) << 8u64) | ((b[at + 2] as u64) << 16u64) | ((b[at + 3] as u64)
        << 24u64) | ((b[at + 4] as u64) << 32u64) | ((b[at + 5] as u64) << 40u64) | ((b[at + 6] as u64)
        << 48u64) | ((b[at + 7] as u64) << 56u64)
}

/// The wire bytes of an operation.
pub open spec fn encoding(op: GuardInstruction) -> Seq<u8> {
    match op {
        GuardInstruction::AnalyzeContract { data_size } => seq![0u8] + le_bytes(data_size),
        GuardInstruction::RecordMetrics { gas_used, success } => seq![1u8] + le_bytes(gas_used) + seq![
            if success {
                1u8
            } else {
                0u8
            },
        ],
        GuardInstruction::UpdateNetworkStats { transactions_per_second, average_block_time } => seq![2u8]
            + le_bytes(transactions_per_second) + le_bytes(average_block_time),
    }
}

/// The operation that the wire bytes `b` hold, if any; bytes after the last
/// field are ignored.
pub open spec fn decoding(b: Seq<u8>) -> Option<GuardInstruction> {
    if b.len() == 0 {
        None
    } else if b[0] == 0 && b.len() >= 9 {
        Some(GuardInstruction::AnalyzeContract { data_size: le_value(b, 1) })
    } else if b[0] == 1 && b.len() >= 10 {
        Some(GuardInstruction::RecordMetrics { gas_used: le_value(b, 1), success: b[9] != 0 })
    } else if b[0] == 2 && b.len() >= 17 {
        Some(
            GuardInstruction::UpdateNetworkStats {
                transactions_per_second: le_value(b, 1),
                average_block_time: le_value(b, 9),
            },
        )
    } else {
        None
    }
}

/// The result of unpacking `b`: the operation, or `InvalidInstructionData`.
pub open spec fn unpacked(b: Seq<u8>) -> Result<GuardInstruction, ProgramError> {
    match decoding(b) {
        Some(op) => Ok(op),
        None => Err(ProgramError::InvalidInstructionData),
    }
}

proof fn lemma_le_value_of_le_bytes(v: u64)
    ensures
        le_value(le_bytes(v), 0) == v,
{
    let b = le_bytes(v);
    assert(b[0] == v as u8 && b[1] == (v >> 8u64) as u8 && b[2] == (v >> 16u64) as u8 && b[3] == (v
        >> 24u64) as u8 && b[4] == (v >> 32u64) as u8 && b[5] == (v >> 40u64) as u8 && b[6] == (v
        >> 48u64) as u8 && b[7] == (v >> 56u64) as u8);
    assert(((v as u8) as u64) | ((((v >> 8u64) as u8) as u64) << 8u64) | ((((v >> 16u64) as u8) as u64)
        << 16u64) | ((((v >> 24u64) as u8) as u64) << 24u64) | ((((v >> 32u64) as u8) as u64) << 32u64)
        | ((((v >> 40u64) as u8) as u64) << 40u64) | ((((v >> 48u64) as u8) as u64) << 48u64) | ((((v
        >> 56u64) as u8) as u64) << 56u64) == v) by (bit_vector);
}

/// The value read at `at` depends on the eight bytes there alone.
proof fn lemma_le_value_window(a: Seq<u8>, i: int, b: Seq<u8>, j: int)
    requires
        0 <= i,
        i + 8 <= a.len(),
        0 <= j,
        j + 8 <= b.len(),
        a.subrange(i, i + 8) == b.subrange(j, j + 8),
    ensures
        le_value(a, i) == le_value(b, j),
{
    let (sa, sb) = (a.subrange(i, i + 8), b.subrange(j, j + 8));
    assert(a[i + 0] == sa[0] && b[j + 0] == sb[0]);
    assert(a[i + 1] == sa[1] && b[j + 1] == sb[1]);
    assert(a[i + 2] == sa[2] && b[j + 2] == sb[2]);
    assert(a[i + 3] == sa[3] && b[j + 3] == sb[3]);
    assert(a[i + 4] == sa[4] && b[j + 4] == sb[4]);
    assert(a[i + 5] == sa[5] && b[j + 5] == sb[5]);
    assert(a[i + 6] == sa[6] && b[j + 6] == sb[6]);
    assert(a[i + 7] == sa[7] && b[j + 7] == sb[7]);
}

/// Decoding the encoding of an operation gives the operation back.
pub proof fn lemma_decode_encode(op: GuardInstruction)
    ensures
        decoding(encoding(op)) == Some(op),
        unpacked(encoding(op)) == Ok::<GuardInstruction, ProgramError>(op),
{
    let e = encoding(op);
    match op {
        GuardInstruction::AnalyzeContract { data_size } => {
            lemma_le_value_of_le_bytes(data_size);
            assert(e.subrange(1, 9) =~= le_bytes(data_size).subrange(0, 8));
            lemma_le_value_window(e, 1, le_bytes(data_size), 0);
        },
        GuardInstruction::RecordMetrics { gas_used, success } => {
            lemma_le_value_of_le_bytes(gas_used);
            assert(e.subrange(1, 9) =~= le_bytes(gas_used).subrange(0, 8));
            lemma_le_value_window(e, 1, le_bytes(gas_used), 0);
        },
        GuardInstruction::UpdateNetworkStats { transactions_per_second, average_block_time } => {
            lemma_le_value_of_le_bytes(transactions_per_second);
            lemma_le_value_of_le_bytes(average_block_time);
            assert(e.subrange(1, 9) =~= le_bytes(transactions_per_second).subrange(0, 8));
            assert(e.subrange(9, 17) =~= le_bytes(average_block_time).subrange(0, 8));
            lemma_le_value_window(e, 1, le_bytes(transactions_per_second), 0);
            lemma_le_value_window(e, 9, le_bytes(average_block_time), 0);
        },
    }
}

/// Appends the eight little-endian bytes of `v`.
fn push_u64_le(out: &mut Vec<u8>, v: u64)
    ensures
        final(out)@ == old(out)@ + le_bytes(v),
{
    out.push(v as u8);
    out.push((v >> 8) as u8);
    out.push((v >> 16) as u8);
    out.push((v >> 24) as u8);
    out.push((v >> 32) as u8);
    out.push((v >> 40) as u8);
    out.push((v >> 48) as u8);
    out.push((v >> 56) as u8);
    assert(final(out)@ =~= old(out)@ + le_bytes(v));
}

impl GuardInstruction {
    /// Decodes wire bytes; fails with `InvalidInstructionData` when the buffer is
    /// empty, the discriminant is unknown, or a field is truncated.
    pub fn unpack(input: &[u8]) -> (r: Result<GuardInstruction, ProgramError>)
        ensures
            r == unpacked(input@),
    {
        if input.len() == 0 {
            return Err(ProgramError::InvalidInstructionData);
        }
        let variant = input[0];
        if variant == 0 {
            let data_size = Self::unpack_u64(input, 1)?;
            Ok(GuardInstruction::AnalyzeContract { data_size })
        } else if variant == 1 {
            let gas_used = Self::unpack_u64(input, 1)?;
            if input.len() < 10 {
                return Err(ProgramError::InvalidInstructionData);
            }
            let success = input[9] != 0;
            Ok(GuardInstruction::RecordMetrics { gas_used, success })
        } else if variant == 2 {
            let transactions_per_second = Self::unpack_u64(input, 1)?;
            let average_block_time = Self::unpack_u64(input, 9)?;
            Ok(GuardInstruction::UpdateNetworkStats { transactions_per_second, average_block_time })
        } else {
            Err(ProgramError::InvalidInstructionData)
        }
    }

    /// Reads the little-endian `u64` at `at`, or fails with `InvalidInstructionData`
    /// when fewer than eight bytes remain there.
    fn unpack_u64(input: &[u8], at: usize) -> (r: Result<u64, ProgramError>)
        requires
            at <= input@.len(),
        ensures
            at + 8 <= input@.len() ==> r == Ok::<u64, ProgramError>(le_value(input@, at as int)),
            at + 8 > input@.len() ==> r == Err::<u64, ProgramError>(ProgramError::InvalidInstructionData),
    {
        if input.len() - at < 8 {
            return Err(ProgramError::InvalidInstructionData);
        }
        let value = (input[at] as u64) | ((input[at + 1] as u64) << 8) | ((input[at + 2] as u64) << 16)
            | ((input[at + 3] as u64) << 24) | ((input[at + 4] as u64) << 32) | ((input[at + 5] as u64)
            << 40) | ((input[at + 6] as u64) << 48) | ((input[at + 7] as u64) << 56);
        Ok(value)
    }

    /// Encodes the operation in the wire format.
    pub fn pack(&self) -> (r: Vec<u8>)
        ensures
            r@ == encoding(*self),
    {
        let mut out: Vec<u8> = Vec::new();
        match self {
            GuardInstruction::AnalyzeContract { data_size } => {
                out.push(0u8);
                push_u64_le(&mut out, *data_size);
            },
            GuardInstruction::RecordMetrics { gas_used, success } => {
                out.push(1u8);
                push_u64_le(&mut out, *gas_used);
                out.push(if *success { 1u8 } else { 0u8 });
            },
            GuardInstruction::UpdateNetworkStats { transactions_per_second, average_block_time } => {
                out.push(2u8);
                push_u64_le(&mut out, *transactions_per_second);
                push_u64_le(&mut out, *average_block_time);
            },
        }
        assert(out@ =~= encoding(*self));
        out
    }
}

} // verus!
