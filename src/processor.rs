//! The heuristic scanner, the risk scorer, and the per-operation processing:
//! authorization guards, lazy initialization and the record mutation.
use crate::account::{AccountKey, AccountView};
use crate::constants::{CALL_LIMIT, MAX_CONTRACT_SIZE, MEMORY_OP_LIMIT};
use crate::instruction::GuardInstruction;
use crate::error::{program_error_of, GuardError};
use crate::state::{AnalysisStatus, MetricsState, ProgramState, SecurityAnalysisState};
use solana_program::clock::UnixTimestamp;
use solana_program::program_error::ProgramError;
use vstd::prelude::*;

verus! {

/// The 4-byte signature of an unsafe sequence starts at `i`.
pub open spec fn unsafe_sequence_at(b: Seq<u8>, i: int) -> bool {
    0 <= i && i + 4 <= b.len() && b[i] == 0x48u8 && b[i + 1] == 0x31u8 && b[i + 2] == 0xc0u8 && b[i + 3]
        == 0x90u8
}

/// The 2-byte signature of a tight loop starts at `i`.
pub open spec fn tight_loop_at(b: Seq<u8>, i: int) -> bool {
    0 <= i && i + 2 <= b.len() && b[i] == 0xebu8 && b[i + 1] == 0xfeu8
}

/// Some window of `b` matches one of the suspicious signatures.
pub open spec fn is_suspicious(b: Seq<u8>) -> bool {
    (exists|i: int| #[trigger] unsafe_sequence_at(b, i)) || (exists|i: int| #[trigger] tight_loop_at(b, i))
}

/// A memory operation (the 2-byte window `48 89`) starts at `i`.
pub open spec fn memory_op_at(b: Seq<u8>, i: int) -> bool {
    0 <= i && i + 2 <= b.len() && b[i] == 0x48u8 && b[i + 1] == 0x89u8
}

/// A call instruction (a 2-byte window whose first byte is `e8`) starts at `i`.
pub open spec fn call_at(b: Seq<u8>, i: int) -> bool {
    0 <= i && i + 2 <= b.len() && b[i] == 0xe8u8
}

/// Number of memory operations that start before `n`.
pub open spec fn memory_ops_before(b: Seq<u8>, n: int) -> nat
    decreases n,
{
    if n <= 0 {
        0
    } else {
        memory_ops_before(b, n - 1) + if memory_op_at(b, n - 1) {
            1nat
        } else {
            0nat
        }
    }
}

/// Number of call instructions that start before `n`.
pub open spec fn calls_before(b: Seq<u8>, n: int) -> nat
    decreases n,
{
    if n <= 0 {
        0
    } else {
        calls_before(b, n - 1) + if call_at(b, n - 1) {
            1nat
        } else {
            0nat
        }
    }
}

/// The binary holds more call instructions or memory operations than allowed.
pub open spec fn is_resource_heavy(b: Seq<u8>) -> bool {
    calls_before(b, b.len() as int) > CALL_LIMIT || memory_ops_before(b, b.len() as int)
        > MEMORY_OP_LIMIT
}

proof fn lemma_counts_bounded(b: Seq<u8>, n: int)
    requires
        0 <= n,
    ensures
        memory_ops_before(b, n) <= n,
        calls_before(b, n) <= n,
    decreases n,
{
    if n > 0 {
        lemma_counts_bounded(b, n - 1);
    }
}

/// A finding of the analysis, in the fixed order size, pattern, resource.
#[derive(Debug, Clone, Copy, PartialEq, Eq, Structural)]
pub enum Finding {
    SizeExceeded,
    SuspiciousPatterns,
    ResourceExhaustion,
}

impl Finding {
    /// A human-readable description of the finding.
    pub fn description(&self) -> (r: &'static str)
        ensures
            *self == Finding::SizeExceeded ==> r@ == "Program size exceeds limit"@,
            *self == Finding::SuspiciousPatterns ==> r@ == "Suspicious instruction patterns detected"@,
            *self == Finding::ResourceExhaustion ==> r@ == "Potential resource exhaustion detected"@,
    {
        match self {
            Finding::SizeExceeded => "Program size exceeds limit",
            Finding::SuspiciousPatterns => "Suspicious instruction patterns detected",
            Finding::ResourceExhaustion => "Potential resource exhaustion detected",
        }
    }
}

/// The binary is larger than the caller's ceiling or the hard limit.
pub open spec fn is_oversized(len: nat, data_size: u64) -> bool {
    len > data_size || len > MAX_CONTRACT_SIZE
}

/// The findings of an analysis of `b` under the ceiling `data_size`, in order.
pub open spec fn findings_of(b: Seq<u8>, data_size: u64) -> Seq<Finding> {
    (if is_oversized(b.len(), data_size) {
        seq![Finding::SizeExceeded]
    } else {
        Seq::empty()
    }) + (if is_suspicious(b) {
        seq![Finding::SuspiciousPatterns]
    } else {
        Seq::empty()
    }) + (if is_resource_heavy(b) {
        seq![Finding::ResourceExhaustion]
    } else {
        Seq::empty()
    })
}

/// The risk score of `b`: 100, less 10 when oversized, 15 when suspicious and
/// 20 when resource heavy.
pub open spec fn risk_score_of(b: Seq<u8>, data_size: u64) -> u8 {
    (100 - (if is_oversized(b.len(), data_size) {
        10int
    } else {
        0int
    }) - (if is_suspicious(b) {
        15int
    } else {
        0int
    }) - (if is_resource_heavy(b) {
        20int
    } else {
        0int
    })) as u8
}

/// The checks of an analysis: four accounts, the authority (third) signed, and
/// the analysis record (second) and network record (fourth) belong to the program.
pub open spec fn analyze_guard(program_id: AccountKey, accounts: Seq<AccountView>) -> Result<(), ProgramError> {
    if accounts.len() < 4 {
        Err(ProgramError::NotEnoughAccountKeys)
    } else if !accounts[2].is_signer {
        Err(program_error_of(GuardError::UnauthorizedAccount))
    } else if accounts[1].owner.bytes@ != program_id.bytes@ || accounts[3].owner.bytes@
        != program_id.bytes@ {
        Err(program_error_of(GuardError::InvalidAccountData))
    } else {
        Ok(())
    }
}

/// The checks of an operation on one record: two accounts, the authority
/// (second) signed, and the record (first) belongs to the program.
pub open spec fn record_guard(program_id: AccountKey, accounts: Seq<AccountView>) -> Result<(), ProgramError> {
    if accounts.len() < 2 {
        Err(ProgramError::NotEnoughAccountKeys)
    } else if !accounts[1].is_signer {
        Err(program_error_of(GuardError::UnauthorizedAccount))
    } else if accounts[0].owner.bytes@ != program_id.bytes@ {
        Err(program_error_of(GuardError::InvalidAccountData))
    } else {
        Ok(())
    }
}

/// The checks that precede an operation.
pub open spec fn guard_of(program_id: AccountKey, op: GuardInstruction, accounts: Seq<AccountView>) -> Result<
    (),
    ProgramError,
> {
    match op {
        GuardInstruction::AnalyzeContract { .. } => analyze_guard(program_id, accounts),
        _ => record_guard(program_id, accounts),
    }
}

/// The stateless passes over a target binary and the operations that use them.
pub struct Processor;

impl Processor {
    /// Whether some 4-byte window is the unsafe signature or some 2-byte window
    /// is the tight-loop signature.
    pub fn check_suspicious_patterns(program_data: &[u8]) -> (r: bool)
        ensures
            r == is_suspicious(program_data@),
    {
        let n = program_data.len();
        let mut i: usize = 0;
        while n - i >= 4
            invariant
                n == program_data@.len(),
                i <= n,
                forall|j: int| 0 <= j < i ==> !#[trigger] unsafe_sequence_at(program_data@, j),
            decreases n - i,
        {
            if program_data[i] == 0x48 && program_data[i + 1] == 0x31 && program_data[i + 2] == 0xc0
                && program_data[i + 3] == 0x90 {
                assert(unsafe_sequence_at(program_data@, i as int));
                return true;
            }
            i = i + 1;
        }
        assert forall|j: int| !#[trigger] unsafe_sequence_at(program_data@, j) by {
            if 0 <= j < i {
            }
        }
        let mut k: usize = 0;
        while n - k >= 2
            invariant
                n == program_data@.len(),
                k <= n,
                forall|j: int| !#[trigger] unsafe_sequence_at(program_data@, j),
                forall|j: int| 0 <= j < k ==> !#[trigger] tight_loop_at(program_data@, j),
            decreases n - k,
        {
            if program_data[k] == 0xeb && program_data[k + 1] == 0xfe {
                assert(tight_loop_at(program_data@, k as int));
                return true;
            }
            k = k + 1;
        }
        assert forall|j: int| !#[trigger] tight_loop_at(program_data@, j) by {
            if 0 <= j < k {
            }
        }
        false
    }

    /// Whether the binary holds more than 1000 call instructions or more than 500
    /// memory operations, counted over its 2-byte windows.
    pub fn check_resource_usage(program_data: &[u8]) -> (r: bool)
        ensures
            r == is_resource_heavy(program_data@),
    {
        let n = program_data.len();
        let mut instruction_count: u64 = 0;
        let mut memory_ops: u64 = 0;
        let mut i: usize = 0;
        while n - i > 1
            invariant
                n == program_data@.len(),
                i <= n,
                n > 0 ==> i <= n - 1,
                instruction_count == calls_before(program_data@, i as int),
                memory_ops == memory_ops_before(program_data@, i as int),
            decreases n - i,
        {
            proof {
                lemma_counts_bounded(program_data@, i as int);
            }
            if program_data[i] == 0x48 && program_data[i + 1] == 0x89 {
                memory_ops = memory_ops + 1;
            } else if program_data[i] == 0xe8 {
                instruction_count = instruction_count + 1;
            }
            i = i + 1;
        }
        proof {
            let b = program_data@;
            if n > 0 {
                assert(!memory_op_at(b, n - 1) && !call_at(b, n - 1));
                assert(i == n - 1);
            } else {
                assert(i == n);
            }
        }
        instruction_count > CALL_LIMIT || memory_ops > MEMORY_OP_LIMIT
    }

    /// Fails with `InvalidAccountData` when the program identifier is all zeros.
    pub fn check_program_id(program_id: &AccountKey) -> (r: Result<(), ProgramError>)
        ensures
            program_id.is_zero_spec() ==> r == Err::<(), ProgramError>(ProgramError::InvalidAccountData),
            !program_id.is_zero_spec() ==> r is Ok,
    {
        if program_id.is_zero() {
            return Err(ProgramError::InvalidAccountData);
        }
        Ok(())
    }

    /// Scores a binary: starting at 100, an oversized binary loses 10, a
    /// suspicious one 15 and a resource-heavy one 20; each such finding is listed
    /// in that order.
    pub fn assess(program_data: &[u8], data_size: u64) -> (r: (u8, Vec<Finding>))
        ensures
            r.0 == risk_score_of(program_data@, data_size),
            r.0 <= 100,
            r.1@ == findings_of(program_data@, data_size),
    {
        let mut findings: Vec<Finding> = Vec::new();
        let mut risk_score: u8 = 100;
        let len = program_data.len();
        if (len as u128) > (data_size as u128) || len > MAX_CONTRACT_SIZE {
            findings.push(Finding::SizeExceeded);
            risk_score = risk_score.saturating_sub(10);
        }
        if Self::check_suspicious_patterns(program_data) {
            findings.push(Finding::SuspiciousPatterns);
            risk_score = risk_score.saturating_sub(15);
        }
        if Self::check_resource_usage(program_data) {
            findings.push(Finding::ResourceExhaustion);
            risk_score = risk_score.saturating_sub(20);
        }
        assert(findings@ =~= findings_of(program_data@, data_size));
        (risk_score, findings)
    }

    /// Runs the checks that precede `op`, in order: account count, signer, owners.
    pub fn authorize(program_id: &AccountKey, op: &GuardInstruction, accounts: &[AccountView]) -> (r:
        Result<(), ProgramError>)
        ensures
            r == guard_of(*program_id, *op, accounts@),
    {
        match op {
            GuardInstruction::AnalyzeContract { .. } => {
                if accounts.len() < 4 {
                    return Err(ProgramError::NotEnoughAccountKeys);
                }
                GuardError::check_signer(accounts[2].is_signer)?;
                GuardError::check_account_owner(&accounts[1].owner, program_id)?;
                GuardError::check_account_owner(&accounts[3].owner, program_id)?;
                Ok(())
            },
            _ => {
                if accounts.len() < 2 {
                    return Err(ProgramError::NotEnoughAccountKeys);
                }
                GuardError::check_signer(accounts[1].is_signer)?;
                GuardError::check_account_owner(&accounts[0].owner, program_id)?;
                Ok(())
            },
        }
    }

    /// The stored analysis record, or a new one for `target` when the slot is empty.
    pub fn load_or_init_analysis(
        stored: Option<SecurityAnalysisState>,
        target: &AccountKey,
        current_timestamp: UnixTimestamp,
    ) -> (r: SecurityAnalysisState)
        ensures
            stored is Some ==> r == stored->Some_0,
            stored is None ==> {
                &&& r.wf()
                &&& r.target_program.bytes@ == target.bytes@
                &&& r.last_analysis == current_timestamp
                &&& r.status == AnalysisStatus::Pending
                &&& r.analysis_history@.len() == 0
                &&& r.patterns_version == 1
            },
    {
        match stored {
            Some(s) => s,
            None => SecurityAnalysisState::new(*target, current_timestamp),
        }
    }

    /// The stored metrics record, or a new one when the slot is empty.
    pub fn load_or_init_metrics(stored: Option<MetricsState>, current_timestamp: UnixTimestamp) -> (r:
        MetricsState)
        ensures
            stored is Some ==> r == stored->Some_0,
            stored is None ==> {
                &&& r.wf()
                &&& r.total_transactions == 0
                &&& r.total_gas_used == 0
                &&& r.success_rate == 0
                &&& r.last_update == current_timestamp
                &&& r.gas_history@.len() == 0
                &&& r.peak_gas_used == 0
                &&& r.error_count == 0
            },
    {
        match stored {
            Some(s) => s,
            None => MetricsState::new(current_timestamp),
        }
    }

    /// The stored network record, or a new one whose authority is `authority`
    /// when the slot is empty.
    pub fn load_or_init_network(
        stored: Option<ProgramState>,
        authority: &AccountKey,
        current_timestamp: UnixTimestamp,
    ) -> (r: ProgramState)
        ensures
            stored is Some ==> r == stored->Some_0,
            stored is None ==> {
                &&& r.authority.bytes@ == authority.bytes@
                &&& r.initialized_at == current_timestamp
                &&& r.last_updated == current_timestamp
                &&& r.transactions_per_second == 0
                &&& r.average_block_time == 0
            },
    {
        match stored {
            Some(s) => s,
            None => ProgramState::new(*authority, current_timestamp),
        }
    }

    /// Analyzes the target binary and records the result in `state`. Fails with
    /// the first failing check, or with `InvalidAccountData` when the record does
    /// not hold its invariant.
    pub fn process_analyze_contract(
        program_id: &AccountKey,
        accounts: &[AccountView],
        data_size: u64,
        program_data: &[u8],
        state: SecurityAnalysisState,
        current_timestamp: UnixTimestamp,
    ) -> (r: Result<SecurityAnalysisState, ProgramError>)
        ensures
            analyze_guard(*program_id, accounts@) is Err ==> r == Err::<SecurityAnalysisState, ProgramError>(
                analyze_guard(*program_id, accounts@)->Err_0,
            ),
            analyze_guard(*program_id, accounts@) is Ok && !state.wf() ==> r == Err::<
                SecurityAnalysisState,
                ProgramError,
            >(program_error_of(GuardError::InvalidAccountData)),
            analyze_guard(*program_id, accounts@) is Ok && state.wf() ==> {
                &&& r is Ok
                &&& r->Ok_0.wf()
                &&& r->Ok_0.risk_score == risk_score_of(program_data@, data_size)
                &&& r->Ok_0.vulnerability_count == findings_of(program_data@, data_size).len()
                &&& r->Ok_0.last_analysis == current_timestamp
                &&& r->Ok_0.status == AnalysisStatus::Completed
                &&& r->Ok_0.analysis_history@ == crate::state::bounded_push(
                    state.analysis_history@,
                    crate::state::ANALYSIS_HISTORY_CAPACITY as nat,
                    (crate::state::AnalysisResult {
                        timestamp: current_timestamp,
                        risk_score: risk_score_of(program_data@, data_size),
                        vulnerability_count: findings_of(program_data@, data_size).len() as u16,
                        status: AnalysisStatus::Completed,
                    }),
                )
                &&& r->Ok_0.target_program == state.target_program
                &&& r->Ok_0.patterns_version == state.patterns_version
            },
    {
        let op = GuardInstruction::AnalyzeContract { data_size };
        Self::authorize(program_id, &op, accounts)?;
        if !state.is_well_formed() {
            return Err(GuardError::InvalidAccountData.to_program_error());
        }
        let mut state = state;
        state.begin_analysis();
        let (risk_score, findings) = Self::assess(program_data, data_size);
        state.update_analysis(risk_score, findings.len() as u16, current_timestamp);
        Ok(state)
    }

    /// Records one transaction in `state`. Fails with the first failing check, or
    /// with `InvalidAccountData` when the record does not hold its invariant.
    pub fn process_record_metrics(
        program_id: &AccountKey,
        accounts: &[AccountView],
        gas_used: u64,
        success: bool,
        state: MetricsState,
        current_timestamp: UnixTimestamp,
    ) -> (r: Result<MetricsState, ProgramError>)
        ensures
            record_guard(*program_id, accounts@) is Err ==> r == Err::<MetricsState, ProgramError>(
                record_guard(*program_id, accounts@)->Err_0,
            ),
            record_guard(*program_id, accounts@) is Ok && !state.wf() ==> r == Err::<
                MetricsState,
                ProgramError,
            >(program_error_of(GuardError::InvalidAccountData)),
            record_guard(*program_id, accounts@) is Ok && state.wf() ==> r is Ok
                && MetricsState::recorded(state, r->Ok_0, gas_used, success, current_timestamp),
    {
        let op = GuardInstruction::RecordMetrics { gas_used, success };
        Self::authorize(program_id, &op, accounts)?;
        if !state.is_well_formed() {
            return Err(GuardError::InvalidAccountData.to_program_error());
        }
        let mut state = state;
        state.record_transaction(gas_used, success, current_timestamp);
        Ok(state)
    }

    /// Sets the network indicators of `state`. Fails with the first failing
    /// check, or with `UnauthorizedAccount` when the signer is not the stored
    /// authority.
    pub fn process_update_network_stats(
        program_id: &AccountKey,
        accounts: &[AccountView],
        transactions_per_second: u64,
        average_block_time: u64,
        state: ProgramState,
        current_timestamp: UnixTimestamp,
    ) -> (r: Result<ProgramState, ProgramError>)
        ensures
            record_guard(*program_id, accounts@) is Err ==> r == Err::<ProgramState, ProgramError>(
                record_guard(*program_id, accounts@)->Err_0,
            ),
            record_guard(*program_id, accounts@) is Ok && state.authority.bytes@
                != accounts@[1].key.bytes@ ==> r == Err::<ProgramState, ProgramError>(
                program_error_of(GuardError::UnauthorizedAccount),
            ),
            record_guard(*program_id, accounts@) is Ok && state.authority.bytes@
                == accounts@[1].key.bytes@ ==> r == Ok::<ProgramState, ProgramError>(
                (ProgramState {
                    transactions_per_second,
                    average_block_time,
                    last_updated: current_timestamp,
                    ..state
                }),
            ),
    {
        let op = GuardInstruction::UpdateNetworkStats { transactions_per_second, average_block_time };
        Self::authorize(program_id, &op, accounts)?;
        state.check_authority(&accounts[1].key)?;
        let mut state = state;
        state.update_network_stats(transactions_per_second, average_block_time, current_timestamp)?;
        Ok(state)
    }
}

} // verus!
