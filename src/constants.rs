//! Limits and thresholds of the program.
use vstd::prelude::*;

verus! {

/// Largest binary the analysis accepts without a finding: 1 MiB.
pub const MAX_CONTRACT_SIZE: usize = 1024 * 1024;

pub const MAX_ANALYSIS_BUFFER: usize = 1024;

pub const MAX_METRICS_BUFFER: usize = 512;

pub const PROGRAM_VERSION: &'static str = "0.1.0";

/// Gas above which a recorded transaction is reported as high.
pub const GAS_WARNING_THRESHOLD: u64 = 100_000;

pub const RISK_SCORE_THRESHOLD: u8 = 80;

pub const DEFAULT_TRANSACTION_SIZE: usize = 1232;

pub const MAX_TRANSACTION_PER_BLOCK: u64 = 1000;

/// Memory operations above which a binary is flagged for resource use.
pub const MEMORY_OP_LIMIT: u64 = 500;

/// Call instructions above which a binary is flagged for resource use.
pub const CALL_LIMIT: u64 = 1000;

} // verus!
