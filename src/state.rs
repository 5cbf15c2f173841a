//! The persistent records: network indicators, security analyses with a bounded
//! history of snapshots, and running transaction metrics with a bounded sample history.
use crate::error::{program_error_of, GuardError};
use crate::account::AccountKey;
use solana_program::clock::UnixTimestamp;
use solana_program::program_error::ProgramError;
use vstd::prelude::*;

verus! {

/// Capacity of a security analysis record's history.
pub const ANALYSIS_HISTORY_CAPACITY: usize = 10;

/// Capacity of a metrics record's sample history.
pub const GAS_HISTORY_CAPACITY: usize = 100;

/// Highest risk score; also the score of a binary with no findings.
pub const MAX_RISK_SCORE: u8 = 100;

/// Appends `x`, first evicting the oldest entry when `s` already holds `cap` entries.
pub open spec fn bounded_push<T>(s: Seq<T>, cap: nat, x: T) -> Seq<T> {
    if s.len() >= cap {
        s.drop_first().push(x)
    } else {
        s.push(x)
    }
}

/// `a + b`, or `u64::MAX` where the sum does not fit.
pub open spec fn saturating_sum(a: u64, b: u64) -> u64 {
    if a + b > u64::MAX {
        u64::MAX
    } else {
        (a + b) as u64
    }
}

/// Floor of `total / count`, or 0 when there is no transaction.
pub open spec fn average_of(total: u64, count: u64) -> u64 {
    if count == 0 {
        0
    } else {
        (total / count) as u64
    }
}

/// The success rate after a transaction, given the rate before it and the new
/// transaction count `n`: the prior successes are rebuilt from the stored
/// percentage, this transaction is added, and the percentage is taken again,
/// truncating at each division.
pub open spec fn next_success_rate(rate: u8, n: u64, success: bool) -> u8 {
    let prior = (rate as int * (n as int - 1)) / 100;
    let successes = prior + if success { 1int } else { 0int };
    ((successes * 100) / (n as int)) as u8
}

/// A bounded history never grows past its capacity, and at capacity the oldest
/// entry is the one that leaves: the others keep their order and the new entry
/// comes last.
pub proof fn lemma_bounded_push_fifo<T>(s: Seq<T>, cap: nat, x: T)
    requires
        cap > 0,
        s.len() <= cap,
    ensures
        bounded_push(s, cap, x).len() <= cap,
        bounded_push(s, cap, x).last() == x,
        s.len() < cap ==> bounded_push(s, cap, x) == s.push(x),
        s.len() == cap ==> bounded_push(s, cap, x).len() == cap,
        s.len() == cap ==> forall|i: int|
            0 <= i < cap - 1 ==> #[trigger] bounded_push(s, cap, x)[i] == s[i + 1],
{
}

/// Appends `x` to `v`, evicting the oldest entry first when `v` holds `cap` entries.
fn push_bounded<T>(v: &mut Vec<T>, cap: usize, x: T)
    requires
        cap > 0,
    ensures
        final(v)@ == bounded_push(old(v)@, cap as nat, x),
{
    if v.len() >= cap {
        v.remove(0);
    }
    v.push(x);
}

/// Network health indicators, mutable by the stored authority only.
#[derive(Debug, Clone)]
pub struct ProgramState {
    /// The account that may update the indicators.
    pub authority: AccountKey,
    pub initialized_at: UnixTimestamp,
    pub last_updated: UnixTimestamp,
    pub transactions_per_second: u64,
    pub average_block_time: u64,
}

impl ProgramState {
    /// Bytes of the stored layout: key, two timestamps, two indicators.
    pub const SPACE: usize = 56;

    pub fn new(authority: AccountKey, current_timestamp: UnixTimestamp) -> (r: ProgramState)
        ensures
            r.authority.bytes@ == authority.bytes@,
            r.initialized_at == current_timestamp,
            r.last_updated == current_timestamp,
            r.transactions_per_second == 0,
            r.average_block_time == 0,
    {
        ProgramState {
            authority,
            initialized_at: current_timestamp,
            last_updated: current_timestamp,
            transactions_per_second: 0,
            average_block_time: 0,
        }
    }

    /// Fails with `UnauthorizedAccount` unless `authority_key` is the stored authority.
    pub fn check_authority(&self, authority_key: &AccountKey) -> (r: Result<(), ProgramError>)
        ensures
            self.authority.bytes@ == authority_key.bytes@ ==> r is Ok,
            self.authority.bytes@ != authority_key.bytes@ ==> r == Err::<(), ProgramError>(
                program_error_of(GuardError::UnauthorizedAccount),
            ),
    {
        if !self.authority.same_as(authority_key) {
            return Err(GuardError::UnauthorizedAccount.to_program_error());
        }
        Ok(())
    }

    /// Sets both indicators and the update time; the authority and creation time stay.
    pub fn update_network_stats(
        &mut self,
        tps: u64,
        block_time: u64,
        current_timestamp: UnixTimestamp,
    ) -> (r: Result<(), ProgramError>)
        ensures
            r is Ok,
            final(self).transactions_per_second == tps,
            final(self).average_block_time == block_time,
            final(self).last_updated == current_timestamp,
            final(self).authority == old(self).authority,
            final(self).initialized_at == old(self).initialized_at,
    {
        self.transactions_per_second = tps;
        self.average_block_time = block_time;
        self.last_updated = current_timestamp;
        Ok(())
    }
}

/// Progress of an analysis.
#[derive(Debug, Clone, Copy, PartialEq, Eq, Structural)]
pub enum AnalysisStatus {
    Pending,
    InProgress,
    Completed,
    /// Reserved: no current logic produces it.
    Failed,
}

/// A snapshot of one completed analysis.
#[derive(Debug, Clone, Copy, PartialEq, Eq, Structural)]
pub struct AnalysisResult {
    pub timestamp: UnixTimestamp,
    pub risk_score: u8,
    pub vulnerability_count: u16,
    pub status: AnalysisStatus,
}

/// The current and recent assessments of one target program.
#[derive(Debug, Clone)]
pub struct SecurityAnalysisState {
    pub target_program: AccountKey,
    pub last_analysis: UnixTimestamp,
    /// Risk score, within `0..=100`.
    pub risk_score: u8,
    pub vulnerability_count: u16,
    pub status: AnalysisStatus,
    /// The most recent snapshots, oldest first.
    pub analysis_history: Vec<AnalysisResult>,
    /// Version of the heuristic rule set in effect.
    pub patterns_version: u16,
}

impl SecurityAnalysisState {
    /// Bytes of the stored layout with the history reservation.
    pub const SPACE: usize = 302;

    /// The record's invariant: a bounded history of scores within range, whose
    /// latest entry is mirrored by the current score and count.
    pub open spec fn wf(&self) -> bool {
        let h = self.analysis_history@;
        &&& h.len() <= ANALYSIS_HISTORY_CAPACITY
        &&& self.risk_score <= MAX_RISK_SCORE
        &&& forall|i: int| 0 <= i < h.len() ==> #[trigger] h[i].risk_score <= MAX_RISK_SCORE
        &&& h.len() > 0 ==> {
            &&& h.last().risk_score == self.risk_score
            &&& h.last().vulnerability_count == self.vulnerability_count
        }
    }

    /// Whether the record holds its invariant (a stored record may not).
    pub fn is_well_formed(&self) -> (r: bool)
        ensures
            r == self.wf(),
    {
        let n = self.analysis_history.len();
        if n > ANALYSIS_HISTORY_CAPACITY || self.risk_score > MAX_RISK_SCORE {
            return false;
        }
        let mut i: usize = 0;
        while i < n
            invariant
                n == self.analysis_history@.len(),
                0 <= i <= n,
                forall|j: int| 0 <= j < i ==> #[trigger] self.analysis_history@[j].risk_score <= MAX_RISK_SCORE,
            decreases n - i,
        {
            if self.analysis_history[i].risk_score > MAX_RISK_SCORE {
                return false;
            }
            i = i + 1;
        }
        if n > 0 {
            let last = &self.analysis_history[n - 1];
            if last.risk_score != self.risk_score || last.vulnerability_count != self.vulnerability_count {
                return false;
            }
        }
        true
    }

    pub fn new(target_program: AccountKey, current_timestamp: UnixTimestamp) -> (r: SecurityAnalysisState)
        ensures
            r.wf(),
            r.target_program.bytes@ == target_program.bytes@,
            r.last_analysis == current_timestamp,
            r.risk_score == 0,
            r.vulnerability_count == 0,
            r.status == AnalysisStatus::Pending,
            r.analysis_history@.len() == 0,
            r.patterns_version == 1,
    {
        SecurityAnalysisState {
            target_program,
            last_analysis: current_timestamp,
            risk_score: 0,
            vulnerability_count: 0,
            status: AnalysisStatus::Pending,
            analysis_history: Vec::with_capacity(ANALYSIS_HISTORY_CAPACITY),
            patterns_version: 1,
        }
    }

    /// Marks the record as being analysed; nothing else changes.
    pub fn begin_analysis(&mut self)
        ensures
            final(self).status == AnalysisStatus::InProgress,
            final(self).target_program == old(self).target_program,
            final(self).last_analysis == old(self).last_analysis,
            final(self).risk_score == old(self).risk_score,
            final(self).vulnerability_count == old(self).vulnerability_count,
            final(self).analysis_history@ == old(self).analysis_history@,
            final(self).patterns_version == old(self).patterns_version,
    {
        self.status = AnalysisStatus::InProgress;
    }

    /// Records a completed analysis: the current fields take the new values and a
    /// snapshot is appended to the history, evicting the oldest at capacity.
    pub fn update_analysis(
        &mut self,
        risk_score: u8,
        vulnerability_count: u16,
        current_timestamp: UnixTimestamp,
    )
        requires
            old(self).wf(),
            risk_score <= MAX_RISK_SCORE,
        ensures
            final(self).wf(),
            final(self).risk_score == risk_score,
            final(self).vulnerability_count == vulnerability_count,
            final(self).last_analysis == current_timestamp,
            final(self).status == AnalysisStatus::Completed,
            final(self).analysis_history@ == bounded_push(
                old(self).analysis_history@,
                ANALYSIS_HISTORY_CAPACITY as nat,
                (AnalysisResult {
                    timestamp: current_timestamp,
                    risk_score,
                    vulnerability_count,
                    status: AnalysisStatus::Completed,
                }),
            ),
            final(self).target_program == old(self).target_program,
            final(self).patterns_version == old(self).patterns_version,
    {
        let result = AnalysisResult {
            timestamp: current_timestamp,
            risk_score,
            vulnerability_count,
            status: AnalysisStatus::Completed,
        };
        self.risk_score = risk_score;
        self.vulnerability_count = vulnerability_count;
        self.last_analysis = current_timestamp;
        self.status = AnalysisStatus::Completed;
        push_bounded(&mut self.analysis_history, ANALYSIS_HISTORY_CAPACITY, result);
        proof {
            let h = self.analysis_history@;
            assert forall|i: int| 0 <= i < h.len() implies #[trigger] h[i].risk_score <= MAX_RISK_SCORE by {
                let o = old(self).analysis_history@;
                if i < h.len() - 1 {
                    if o.len() >= ANALYSIS_HISTORY_CAPACITY {
                        assert(h[i] == o[i + 1]);
                    } else {
                        assert(h[i] == o[i]);
                    }
                }
            }
        }
    }

    /// The change of risk score between the two most recent snapshots, if there are two.
    pub fn get_risk_trend(&self) -> (r: Option<i8>)
        requires
            self.wf(),
        ensures
            self.analysis_history@.len() < 2 ==> r is None,
            self.analysis_history@.len() >= 2 ==> r == Some(
                (self.analysis_history@.last().risk_score
                    - self.analysis_history@[self.analysis_history@.len() - 2].risk_score) as i8,
            ),
    {
        let n = self.analysis_history.len();
        if n < 2 {
            return None;
        }
        let latest = self.analysis_history[n - 1].risk_score;
        let previous = self.analysis_history[n - 2].risk_score;
        assert(self.analysis_history@[n - 1].risk_score <= MAX_RISK_SCORE);
        assert(self.analysis_history@[n - 2].risk_score <= MAX_RISK_SCORE);
        Some(latest as i8 - previous as i8)
    }
}

/// A raw sample of one recorded transaction.
#[derive(Debug, Clone, Copy, PartialEq, Eq, Structural)]
pub struct GasMetric {
    pub timestamp: UnixTimestamp,
    pub gas_used: u64,
    pub success: bool,
}

/// Running transaction statistics with a bounded history of raw samples.
#[derive(Debug, Clone)]
pub struct MetricsState {
    pub total_transactions: u64,
    /// Sum of the gas of all recorded transactions, saturating.
    pub total_gas_used: u64,
    pub avg_gas_used: u64,
    /// Percentage of successful transactions, within `0..=100`.
    pub success_rate: u8,
    pub last_update: UnixTimestamp,
    /// The most recent samples, oldest first.
    pub gas_history: Vec<GasMetric>,
    pub peak_gas_used: u64,
    pub error_count: u64,
}

impl MetricsState {
    /// Bytes of the stored layout with the history reservation.
    pub const SPACE: usize = 305;

    /// The record's invariant: a bounded history, a percentage in range, and an
    /// average that is the floor of total over count.
    pub open spec fn wf(&self) -> bool {
        &&& self.gas_history@.len() <= GAS_HISTORY_CAPACITY
        &&& self.success_rate <= 100
        &&& self.avg_gas_used == average_of(self.total_gas_used, self.total_transactions)
    }

    /// Whether the record holds its invariant (a stored record may not).
    pub fn is_well_formed(&self) -> (r: bool)
        ensures
            r == self.wf(),
    {
        let avg = if self.total_transactions == 0 {
            0
        } else {
            self.total_gas_used / self.total_transactions
        };
        self.gas_history.len() <= GAS_HISTORY_CAPACITY && self.success_rate <= 100
            && self.avg_gas_used == avg
    }

    pub fn new(current_timestamp: UnixTimestamp) -> (r: MetricsState)
        ensures
            r.wf(),
            r.total_transactions == 0,
            r.total_gas_used == 0,
            r.avg_gas_used == 0,
            r.success_rate == 0,
            r.last_update == current_timestamp,
            r.gas_history@.len() == 0,
            r.peak_gas_used == 0,
            r.error_count == 0,
    {
        MetricsState {
            total_transactions: 0,
            total_gas_used: 0,
            avg_gas_used: 0,
            success_rate: 0,
            last_update: current_timestamp,
            gas_history: Vec::with_capacity(GAS_HISTORY_CAPACITY),
            peak_gas_used: 0,
            error_count: 0,
        }
    }

    /// `after` is `before` with one transaction of `gas_used` and outcome `success`
    /// recorded at `current_timestamp`.
    pub open spec fn recorded(
        before: MetricsState,
        after: MetricsState,
        gas_used: u64,
        success: bool,
        current_timestamp: UnixTimestamp,
    ) -> bool {
        &&& after.wf()
        &&& after.total_transactions == saturating_sum(before.total_transactions, 1)
        &&& after.total_gas_used == saturating_sum(before.total_gas_used, gas_used)
        &&& after.avg_gas_used == average_of(after.total_gas_used, after.total_transactions)
        &&& after.success_rate == next_success_rate(before.success_rate, after.total_transactions, success)
        &&& after.peak_gas_used == if gas_used > before.peak_gas_used {
            gas_used
        } else {
            before.peak_gas_used
        }
        &&& after.error_count == if success {
            before.error_count
        } else {
            saturating_sum(before.error_count, 1)
        }
        &&& after.gas_history@ == bounded_push(
            before.gas_history@,
            GAS_HISTORY_CAPACITY as nat,
            (GasMetric { timestamp: current_timestamp, gas_used, success }),
        )
        &&& after.last_update == current_timestamp
    }

    /// Records one transaction: counters and totals grow (saturating), the
    /// average, success rate and peak are recomputed, and a sample is appended to
    /// the history, evicting the oldest at capacity.
    pub fn record_transaction(&mut self, gas_used: u64, success: bool, current_timestamp: UnixTimestamp)
        requires
            old(self).wf(),
        ensures
            Self::recorded(*old(self), *final(self), gas_used, success, current_timestamp),
    {
        self.total_transactions = self.total_transactions.saturating_add(1);
        self.total_gas_used = self.total_gas_used.saturating_add(gas_used);
        self.avg_gas_used = self.total_gas_used / self.total_transactions;

        let n = self.total_transactions;
        let rate = self.success_rate;
        proof {
            assert((rate as int) * ((n - 1) as int) <= 255 * (u64::MAX as int)) by (nonlinear_arith)
                requires rate <= 255, n - 1 <= u64::MAX;
        }
        let prior: u128 = (rate as u128) * ((n - 1) as u128) / 100;
        proof {
            assert((rate as int) * ((n - 1) as int) <= 100 * ((n - 1) as int)) by (nonlinear_arith)
                requires rate <= 100, n >= 1;
            assert(prior <= n - 1);
        }
        let successes: u128 = prior + if success { 1 } else { 0 };
        let new_rate: u128 = successes * 100 / (n as u128);
        proof {
            assert(successes * 100 / (n as int) <= 100) by (nonlinear_arith)
                requires successes <= n, n >= 1;
        }
        self.success_rate = new_rate as u8;

        if gas_used > self.peak_gas_used {
            self.peak_gas_used = gas_used;
        }
        if !success {
            self.error_count = self.error_count.saturating_add(1);
        }
        let metric = GasMetric { timestamp: current_timestamp, gas_used, success };
        push_bounded(&mut self.gas_history, GAS_HISTORY_CAPACITY, metric);
        self.last_update = current_timestamp;
    }

    /// The change of gas between the two most recent samples, if there are two,
    /// wrapped into `i64`.
    pub fn get_gas_trend(&self) -> (r: Option<i64>)
        ensures
            self.gas_history@.len() < 2 ==> r is None,
            self.gas_history@.len() >= 2 ==> r == Some(
                (self.gas_history@.last().gas_used
                    - self.gas_history@[self.gas_history@.len() - 2].gas_used) as i64,
            ),
    {
        let n = self.gas_history.len();
        if n < 2 {
            return None;
        }
        let latest = self.gas_history[n - 1].gas_used;
        let previous = self.gas_history[n - 2].gas_used;
        let diff: i128 = latest as i128 - previous as i128;
        Some(diff as i64)
    }
}

/// Sum of the gas of a sequence of transactions.
pub open spec fn gas_sum(gas: Seq<u64>) -> int
    decreases gas.len(),
{
    if gas.len() == 0 {
        0
    } else {
        gas_sum(gas.drop_last()) + gas.last()
    }
}

proof fn lemma_gas_sum_prefix_bounded(gas: Seq<u64>, k: int)
    requires
        0 <= k <= gas.len(),
    ensures
        0 <= gas_sum(gas.subrange(0, k)) <= gas_sum(gas),
    decreases gas.len() - k,
{
    if k < gas.len() {
        lemma_gas_sum_prefix_bounded(gas, k + 1);
        assert(gas.subrange(0, k + 1).drop_last() =~= gas.subrange(0, k));
    } else {
        assert(gas.subrange(0, k) =~= gas);
    }
    lemma_gas_sum_nonnegative(gas.subrange(0, k));
}

proof fn lemma_gas_sum_nonnegative(gas: Seq<u64>)
    ensures
        gas_sum(gas) >= 0,
    decreases gas.len(),
{
    if gas.len() > 0 {
        lemma_gas_sum_nonnegative(gas.drop_last());
    }
}

proof fn lemma_totals_of_prefix(
    states: Seq<MetricsState>,
    gas: Seq<u64>,
    success: Seq<bool>,
    times: Seq<UnixTimestamp>,
    k: int,
)
    requires
        states.len() == gas.len() + 1,
        success.len() == gas.len(),
        times.len() == gas.len(),
        states[0].total_transactions == 0,
        states[0].total_gas_used == 0,
        forall|i: int|
            0 <= i < gas.len() ==> #[trigger] MetricsState::recorded(
                states[i],
                states[i + 1],
                gas[i],
                success[i],
                times[i],
            ),
        gas_sum(gas) <= u64::MAX,
        gas.len() <= u64::MAX,
        0 <= k <= gas.len(),
    ensures
        states[k].total_transactions == k,
        states[k].total_gas_used == gas_sum(gas.subrange(0, k)),
    decreases k,
{
    if k == 0 {
        assert(gas.subrange(0, 0) =~= Seq::<u64>::empty());
    } else {
        lemma_totals_of_prefix(states, gas, success, times, k - 1);
        let j = k - 1;
        assert(MetricsState::recorded(states[j], states[j + 1], gas[j], success[j], times[j]));
        assert(gas.subrange(0, k).drop_last() =~= gas.subrange(0, k - 1));
        lemma_gas_sum_prefix_bounded(gas, k);
    }
}

/// Recording transactions one after another on a fresh record keeps the average
/// at the floor of the mean gas, as long as neither the count nor the total
/// saturates.
pub proof fn lemma_average_is_floor_of_mean(
    states: Seq<MetricsState>,
    gas: Seq<u64>,
    success: Seq<bool>,
    times: Seq<UnixTimestamp>,
)
    requires
        states.len() == gas.len() + 1,
        success.len() == gas.len(),
        times.len() == gas.len(),
        states[0].total_transactions == 0,
        states[0].total_gas_used == 0,
        forall|i: int|
            0 <= i < gas.len() ==> #[trigger] MetricsState::recorded(
                states[i],
                states[i + 1],
                gas[i],
                success[i],
                times[i],
            ),
        gas_sum(gas) <= u64::MAX,
        gas.len() <= u64::MAX,
    ensures
        states.last().total_transactions == gas.len(),
        states.last().total_gas_used == gas_sum(gas),
        gas.len() > 0 ==> states.last().avg_gas_used == gas_sum(gas) / (gas.len() as int),
{
    let n = gas.len() as int;
    lemma_totals_of_prefix(states, gas, success, times, n);
    assert(gas.subrange(0, n) =~= gas);
    if n > 0 {
        let j = n - 1;
        assert(MetricsState::recorded(states[j], states[j + 1], gas[j], success[j], times[j]));
    }
}

} // verus!
