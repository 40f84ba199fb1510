//! The integrated simulation environment (ISE): a tick-driven timing harness that
//! classifies each tick's timing, injects faults on request, and keeps evidence.

use vstd::prelude::*;
use std::collections::VecDeque;
use crate::canonical_time::{CanonicalTime, ptp_constants, abs_int};
use crate::failure_axis::{FailureAxis, SystemHalt};
use crate::digest::{sha256, sha256_digest, le_bytes, push_le_bytes};
use crate::text::{decimal, signed_decimal, push_str, push_decimal, push_signed_decimal};

verus! {

/// How simulated time advances.
#[derive(PartialEq, Eq, Structural, Clone, Copy, Debug)]
pub enum ExecutionMode {
    /// Follows the wall clock.
    Realtime,
    /// Runs the given number of times faster than real time.
    Accelerated(u32),
    /// One millisecond per step.
    Step,
}

/// What a tick's evidence shows.
#[derive(Clone, Debug)]
pub enum FailureClassification {
    /// Timing within tolerance.
    TimingOk { phase_offset_ns: i128, freq_offset_ppm: i32 },
    /// Phase offset beyond tolerance.
    TimingDriftPhase { phase_offset_ns: i128, threshold_ns: i64 },
    /// Frequency drift beyond tolerance.
    TimingDriftFrequency { freq_offset_ppm: i32, threshold_ppm: i32 },
    /// Parity, hash or CRC mismatch.
    DataCorruption { field: String, detected_via: String },
    /// Adversarial injection.
    InjectionDetected { injection_type: String, evidence: String },
    /// Authority inversion or replay.
    AuthorityInversion { reason: String },
}

/// The halt axis of a classification (none for good timing).
pub open spec fn axis_of(c: FailureClassification) -> Option<FailureAxis> {
    match c {
        FailureClassification::TimingOk { .. } => None,
        FailureClassification::TimingDriftPhase { .. } => Some(FailureAxis::TimingDriftFailure),
        FailureClassification::TimingDriftFrequency { .. } => Some(FailureAxis::TimingDriftFailure),
        FailureClassification::DataCorruption { .. } => Some(FailureAxis::InternalInvariantBreach),
        FailureClassification::InjectionDetected { .. } => Some(FailureAxis::ExternalInjectionDetected),
        FailureClassification::AuthorityInversion { .. } => Some(FailureAxis::AuthorityInversionAttempt),
    }
}

impl FailureClassification {
    /// The halt axis of the classification, none for good timing.
    pub fn to_failure_axis(&self) -> (res: Option<FailureAxis>)
        ensures
            res == axis_of(*self),
    {
        match self {
            FailureClassification::TimingOk { .. } => None,
            FailureClassification::TimingDriftPhase { .. } => Some(FailureAxis::TimingDriftFailure),
            FailureClassification::TimingDriftFrequency { .. } => Some(FailureAxis::TimingDriftFailure),
            FailureClassification::DataCorruption { .. } => Some(FailureAxis::InternalInvariantBreach),
            FailureClassification::InjectionDetected { .. } => Some(FailureAxis::ExternalInjectionDetected),
            FailureClassification::AuthorityInversion { .. } => Some(FailureAxis::AuthorityInversionAttempt),
        }
    }
}

/// The timing evidence of one tick.
#[derive(Clone, Debug)]
pub struct TimingEvidence {
    pub tick: u64,
    pub canonical_time_ns: u128,
    pub phase_offset_ns: i128,
    pub freq_offset_ppm: i32,
    pub jitter_ns: u64,
    pub classification: FailureClassification,
}

/// What the harness runs: its time mode, tick budget, and which faults it injects.
#[derive(Clone, Copy, Debug)]
pub struct IseConfig {
    pub mode: ExecutionMode,
    pub max_ticks: u64,
    pub enable_clock_drift_injection: bool,
    pub enable_parity_fault_injection: bool,
    /// Frequency drift reported while drift injection is on.
    pub drift_injection_ppm: i32,
}

impl Default for IseConfig {
    fn default() -> (res: Self)
        ensures
            res.mode == ExecutionMode::Step,
            res.max_ticks == 1000,
            !res.enable_clock_drift_injection,
            !res.enable_parity_fault_injection,
            res.drift_injection_ppm == 0,
    {
        IseConfig {
            mode: ExecutionMode::Step,
            max_ticks: 1000,
            enable_clock_drift_injection: false,
            enable_parity_fault_injection: false,
            drift_injection_ppm: 0,
        }
    }
}

/// The harness: configuration, tick and clocks, evidence, and fault counters.
pub struct IseHarness {
    config: IseConfig,
    current_tick: u64,
    current_time_ns: u128,
    reference_time_ns: u128,
    evidence_log: VecDeque<TimingEvidence>,
    missed_syncs: u32,
    parity_error_count: u64,
    hash_error_count: u64,
}

/// The harness as plain values.
pub struct IseView {
    pub config: IseConfig,
    pub current_tick: u64,
    pub current_time_ns: u128,
    pub reference_time_ns: u128,
    pub evidence: Seq<TimingEvidence>,
    pub missed_syncs: u32,
    pub parity_error_count: u64,
    pub hash_error_count: u64,
}

impl View for IseHarness {
    type V = IseView;

    closed spec fn view(&self) -> IseView {
        IseView {
            config: self.config,
            current_tick: self.current_tick,
            current_time_ns: self.current_time_ns,
            reference_time_ns: self.reference_time_ns,
            evidence: self.evidence_log@,
            missed_syncs: self.missed_syncs,
            parity_error_count: self.parity_error_count,
            hash_error_count: self.hash_error_count,
        }
    }
}

/// The phase offset of simulated time from the reference.
pub open spec fn phase_of(v: IseView) -> int {
    (v.current_time_ns as i128) - (v.reference_time_ns as i128)
}

/// The frequency offset reported while drift injection is on or off.
pub open spec fn freq_of(c: IseConfig) -> i32 {
    if c.enable_clock_drift_injection {
        c.drift_injection_ppm
    } else {
        0
    }
}

/// The machine limits a tick must stay within: the phase offset fits an `i128`
/// with a negatable value, and the parity counter can count once more.
pub open spec fn tick_in_range(v: IseView) -> bool {
    &&& i128::MIN < phase_of(v) <= i128::MAX
    &&& v.parity_error_count < u64::MAX
    &&& v.config.drift_injection_ppm != i32::MIN
}

/// The timing classification of a tick without an injected fault: phase drift,
/// else frequency drift, else good timing.
pub open spec fn timing_class(v: IseView) -> FailureClassification {
    let phase = phase_of(v);
    let freq = freq_of(v.config);
    if abs_int(phase) > ptp_constants::MAX_PHASE_OFFSET_NS {
        FailureClassification::TimingDriftPhase {
            phase_offset_ns: phase as i128,
            threshold_ns: ptp_constants::MAX_PHASE_OFFSET_NS,
        }
    } else if abs_int(freq as int) > ptp_constants::MAX_FREQUENCY_DRIFT_PPM {
        FailureClassification::TimingDriftFrequency {
            freq_offset_ppm: freq,
            threshold_ppm: ptp_constants::MAX_FREQUENCY_DRIFT_PPM,
        }
    } else {
        FailureClassification::TimingOk { phase_offset_ns: phase as i128, freq_offset_ppm: freq }
    }
}

/// The evidence recorded for a tick, and the halt it raises, given the harness
/// after its clocks advanced (`v`) and the new tick number.
pub open spec fn tick_outcome(
    v: IseView,
    tick: u64,
    inject_parity: bool,
    e: TimingEvidence,
    res: Result<(), SystemHalt>,
) -> bool {
    let phase = phase_of(v);
    let freq = freq_of(v.config);
    &&& e.tick == tick
    &&& e.canonical_time_ns == v.current_time_ns
    &&& e.phase_offset_ns == phase
    &&& e.freq_offset_ppm == freq
    &&& e.jitter_ns == 0
    &&& if v.config.enable_parity_fault_injection && inject_parity {
        &&& e.classification matches FailureClassification::DataCorruption { field, detected_via }
            && field@ == "witness_"@ + decimal((tick % 32) as nat) && detected_via@ == "parity"@
        &&& res is Err && res->Err_0.axis == FailureAxis::InternalInvariantBreach
            && res->Err_0.message@ == "ISE: Parity error detected at tick "@ + decimal(tick as nat)
            + " (injected)"@
    } else if abs_int(phase) > ptp_constants::MAX_PHASE_OFFSET_NS {
        &&& e.classification == timing_class(v)
        &&& res is Err && res->Err_0.axis == FailureAxis::TimingDriftFailure
            && res->Err_0.message@ == "ISE: Phase offset "@ + signed_decimal(phase)
            + " ns exceeds tolerance (HALT_0xABF3)"@
    } else if abs_int(freq as int) > ptp_constants::MAX_FREQUENCY_DRIFT_PPM {
        &&& e.classification == timing_class(v)
        &&& res is Err && res->Err_0.axis == FailureAxis::TimingDriftFailure
            && res->Err_0.message@ == "ISE: Frequency drift "@ + signed_decimal(freq as int)
            + " ppm exceeds tolerance (HALT_0xABF3)"@
    } else {
        &&& e.classification == timing_class(v)
        &&& res is Ok
    }
}

/// `after` is `before` with the tick advanced, one evidence record `e` appended,
/// the parity counter bumped when a parity fault was injected, and the outcome
/// as `tick_outcome` says.
pub open spec fn advanced(before: IseView, after: IseView, inject_parity: bool, res: Result<(), SystemHalt>) -> bool {
    let tick = before.current_tick.saturating_add(1);
    let parity = before.config.enable_parity_fault_injection && inject_parity;
    &&& after.config == before.config
    &&& after.current_tick == tick
    &&& after.current_time_ns == before.current_time_ns
    &&& after.reference_time_ns == before.reference_time_ns
    &&& after.evidence.len() == before.evidence.len() + 1
    &&& after.evidence.drop_last() == before.evidence
    &&& tick_outcome(before, tick, inject_parity, after.evidence.last(), res)
    &&& after.parity_error_count == if parity {
        (before.parity_error_count + 1) as u64
    } else {
        before.parity_error_count
    }
    &&& after.missed_syncs == before.missed_syncs
    &&& after.hash_error_count == before.hash_error_count
}

/// How many evidence records carry each class: good timing, drift (phase or
/// frequency), corruption, injection, authority.
pub open spec fn class_index(c: FailureClassification) -> int {
    match c {
        FailureClassification::TimingOk { .. } => 0,
        FailureClassification::TimingDriftPhase { .. } => 1,
        FailureClassification::TimingDriftFrequency { .. } => 1,
        FailureClassification::DataCorruption { .. } => 2,
        FailureClassification::InjectionDetected { .. } => 3,
        FailureClassification::AuthorityInversion { .. } => 4,
    }
}

/// The number of records of `ev` in class `k`.
pub open spec fn count_in_class(ev: Seq<TimingEvidence>, k: int) -> nat
    decreases ev.len(),
{
    if ev.len() == 0 {
        0
    } else {
        count_in_class(ev.drop_last(), k) + if class_index(ev.last().classification) == k {
            1nat
        } else {
            0nat
        }
    }
}

/// What each statistic counts, stated by the records' classifications: good timing
/// counts exactly the `TimingOk` records; drift counts exactly the
/// `TimingDriftPhase` and `TimingDriftFrequency` records (so a drift record is
/// never counted as good timing); corruption, injection and authority inversion
/// count exactly the records of their own class.
pub proof fn lemma_class_counts(ev: Seq<TimingEvidence>)
    ensures
        count_in_class(ev, 0) == ev.filter(
            |e: TimingEvidence| e.classification is TimingOk,
        ).len(),
        count_in_class(ev, 1) == ev.filter(
            |e: TimingEvidence|
                e.classification is TimingDriftPhase || e.classification is TimingDriftFrequency,
        ).len(),
        count_in_class(ev, 2) == ev.filter(
            |e: TimingEvidence| e.classification is DataCorruption,
        ).len(),
        count_in_class(ev, 3) == ev.filter(
            |e: TimingEvidence| e.classification is InjectionDetected,
        ).len(),
        count_in_class(ev, 4) == ev.filter(
            |e: TimingEvidence| e.classification is AuthorityInversion,
        ).len(),
    decreases ev.len(),
{
    if ev.len() > 0 {
        lemma_class_counts(ev.drop_last());
        let c = ev.last().classification;
        reveal_with_fuel(Seq::filter, 1);
        assert(class_index(c) == 0 <==> c is TimingOk);
        assert(class_index(c) == 1 <==> (c is TimingDriftPhase || c is TimingDriftFrequency));
    }
}

/// The bytes the fingerprint covers for one record: tick (8), time (16), phase
/// (16, two's complement) and frequency offset (4, two's complement), little-endian.
pub open spec fn evidence_bytes(e: TimingEvidence) -> Seq<u8> {
    le_bytes(e.tick as nat, 8) + le_bytes(e.canonical_time_ns as nat, 16) + le_bytes(
        (e.phase_offset_ns as u128) as nat,
        16,
    ) + le_bytes((e.freq_offset_ppm as u32) as nat, 4)
}

/// The fingerprint bytes of all records, in order.
pub open spec fn evidence_stream(ev: Seq<TimingEvidence>) -> Seq<u8>
    decreases ev.len(),
{
    if ev.len() == 0 {
        Seq::empty()
    } else {
        evidence_stream(ev.drop_last()) + evidence_bytes(ev.last())
    }
}

/// The fingerprint covers every record in log order: with no records it covers no
/// bytes, and appending a record appends its tick (8 bytes), time (16 bytes),
/// phase offset (16 bytes, two's complement) and frequency offset (4 bytes, two's
/// complement), each little-endian, in that order.
pub proof fn lemma_fingerprint_layout(ev: Seq<TimingEvidence>, e: TimingEvidence)
    ensures
        evidence_stream(Seq::<TimingEvidence>::empty()) == Seq::<u8>::empty(),
        evidence_stream(ev.push(e)) == evidence_stream(ev) + le_bytes(e.tick as nat, 8) + le_bytes(
            e.canonical_time_ns as nat,
            16,
        ) + le_bytes((e.phase_offset_ns as u128) as nat, 16) + le_bytes(
            (e.freq_offset_ppm as u32) as nat,
            4,
        ),
{
    assert(ev.push(e).drop_last() =~= ev);
    assert(evidence_stream(ev.push(e)) =~= evidence_stream(ev) + le_bytes(e.tick as nat, 8)
        + le_bytes(e.canonical_time_ns as nat, 16) + le_bytes((e.phase_offset_ns as u128) as nat, 16)
        + le_bytes((e.freq_offset_ppm as u32) as nat, 4));
}

impl IseHarness {
    /// A harness at tick 0 whose simulated and reference clocks both start at
    /// `now_ns`, with no evidence and no faults counted.
    pub fn new(config: IseConfig, now_ns: u128) -> (res: Self)
        ensures
            res@.config == config,
            res@.current_tick == 0,
            res@.current_time_ns == now_ns,
            res@.reference_time_ns == now_ns,
            res@.evidence.len() == 0,
            res@.missed_syncs == 0,
            res@.parity_error_count == 0,
            res@.hash_error_count == 0,
    {
        IseHarness {
            config,
            current_tick: 0,
            current_time_ns: now_ns,
            reference_time_ns: now_ns,
            evidence_log: VecDeque::new(),
            missed_syncs: 0,
            parity_error_count: 0,
            hash_error_count: 0,
        }
    }

    /// Advances one tick with the clocks already moved: classifies the tick's
    /// timing (parity fault first, then phase, then frequency), records the
    /// evidence and halts on a fault.
    fn advance_core(&mut self, inject_parity: bool) -> (res: Result<(), SystemHalt>)
        requires
            tick_in_range(old(self)@),
        ensures
            advanced(old(self)@, final(self)@, inject_parity, res),
    {
        let ghost before = self@;
        self.current_tick = self.current_tick.saturating_add(1);
        let phase_offset_ns = (self.current_time_ns as i128) - (self.reference_time_ns as i128);
        let freq_offset_ppm = if self.config.enable_clock_drift_injection {
            self.config.drift_injection_ppm
        } else {
            0
        };
        if self.config.enable_parity_fault_injection && inject_parity {
            self.parity_error_count = self.parity_error_count + 1;
            let mut field = String::from_str("witness_");
            push_decimal(&mut field, (self.current_tick % 32) as u128);
            let evidence = TimingEvidence {
                tick: self.current_tick,
                canonical_time_ns: self.current_time_ns,
                phase_offset_ns,
                freq_offset_ppm,
                jitter_ns: 0,
                classification: FailureClassification::DataCorruption {
                    field,
                    detected_via: String::from_str("parity"),
                },
            };
            self.evidence_log.push_back(evidence);
            let mut m = String::from_str("ISE: Parity error detected at tick ");
            push_decimal(&mut m, self.current_tick as u128);
            push_str(&mut m, " (injected)");
            proof {
                assert(self@.evidence.drop_last() =~= before.evidence);
            }
            return Err(SystemHalt::with_formatted(FailureAxis::InternalInvariantBreach, m));
        }
        let phase_magnitude = if phase_offset_ns < 0 { -phase_offset_ns } else { phase_offset_ns };
        if phase_magnitude > (ptp_constants::MAX_PHASE_OFFSET_NS as i128) {
            let evidence = TimingEvidence {
                tick: self.current_tick,
                canonical_time_ns: self.current_time_ns,
                phase_offset_ns,
                freq_offset_ppm,
                jitter_ns: 0,
                classification: FailureClassification::TimingDriftPhase {
                    phase_offset_ns,
                    threshold_ns: ptp_constants::MAX_PHASE_OFFSET_NS,
                },
            };
            self.evidence_log.push_back(evidence);
            let mut m = String::from_str("ISE: Phase offset ");
            push_signed_decimal(&mut m, phase_offset_ns);
            push_str(&mut m, " ns exceeds tolerance (HALT_0xABF3)");
            proof {
                assert(self@.evidence.drop_last() =~= before.evidence);
            }
            return Err(SystemHalt::with_formatted(FailureAxis::TimingDriftFailure, m));
        }
        let freq_magnitude = if freq_offset_ppm < 0 { -freq_offset_ppm } else { freq_offset_ppm };
        if freq_magnitude > ptp_constants::MAX_FREQUENCY_DRIFT_PPM {
            let evidence = TimingEvidence {
                tick: self.current_tick,
                canonical_time_ns: self.current_time_ns,
                phase_offset_ns,
                freq_offset_ppm,
                jitter_ns: 0,
                classification: FailureClassification::TimingDriftFrequency {
                    freq_offset_ppm,
                    threshold_ppm: ptp_constants::MAX_FREQUENCY_DRIFT_PPM,
                },
            };
            self.evidence_log.push_back(evidence);
            let mut m = String::from_str("ISE: Frequency drift ");
            push_signed_decimal(&mut m, freq_offset_ppm as i128);
            push_str(&mut m, " ppm exceeds tolerance (HALT_0xABF3)");
            proof {
                assert(self@.evidence.drop_last() =~= before.evidence);
            }
            return Err(SystemHalt::with_formatted(FailureAxis::TimingDriftFailure, m));
        }
        let evidence = TimingEvidence {
            tick: self.current_tick,
            canonical_time_ns: self.current_time_ns,
            phase_offset_ns,
            freq_offset_ppm,
            jitter_ns: 0,
            classification: FailureClassification::TimingOk { phase_offset_ns, freq_offset_ppm },
        };
        self.evidence_log.push_back(evidence);
        proof {
            assert(self@.evidence.drop_last() =~= before.evidence);
        }
        Ok(())
    }
}


/// Whether the phase offset of simulated time `t` from reference `r`, each read as
/// an `i128`, fits an `i128` with a negatable value.
fn phase_fits(t: u128, r: u128) -> (res: bool)
    ensures
        res == (i128::MIN < (t as i128) - (r as i128) <= i128::MAX),
{
    let a = t as i128;
    let b = r as i128;
    if b > 0 {
        a > i128::MIN + b
    } else {
        !(a == i128::MIN && b == 0) && a <= i128::MAX + b
    }
}

/// The harness after its clocks move for one step, or nothing when a real-time
/// step finds the wall clock (`now_ns`) behind simulated time.
pub open spec fn moved_clocks(v: IseView, now_ns: u128) -> Option<IseView> {
    match v.config.mode {
        ExecutionMode::Step => Some(
            IseView {
                current_time_ns: (v.current_time_ns + 1_000_000) as u128,
                reference_time_ns: v.reference_time_ns.saturating_add(1_000_000),
                ..v
            },
        ),
        ExecutionMode::Accelerated(f) => Some(
            IseView {
                current_time_ns: (v.current_time_ns + f * 1_000_000) as u128,
                reference_time_ns: v.reference_time_ns.saturating_add((f * 1_000_000) as u128),
                ..v
            },
        ),
        ExecutionMode::Realtime => if now_ns < v.current_time_ns {
            None
        } else {
            Some(IseView { current_time_ns: now_ns, ..v })
        },
    }
}

/// The machine limits of a step: simulated time does not pass `u128::MAX` and the
/// tick that follows stays in range.
pub open spec fn step_in_range(v: IseView, now_ns: u128) -> bool {
    v.current_tick >= v.config.max_ticks || match v.config.mode {
        ExecutionMode::Step => v.current_time_ns + 1_000_000 <= u128::MAX && tick_in_range(
            moved_clocks(v, now_ns)->0,
        ),
        ExecutionMode::Accelerated(f) => v.current_time_ns + f * 1_000_000 <= u128::MAX
            && tick_in_range(moved_clocks(v, now_ns)->0),
        ExecutionMode::Realtime => now_ns < v.current_time_ns || tick_in_range(
            moved_clocks(v, now_ns)->0,
        ),
    }
}

/// The outcome of one step.
pub open spec fn stepped(before: IseView, after: IseView, now_ns: u128, inject_parity: bool, res: Result<(), SystemHalt>) -> bool {
    if before.current_tick >= before.config.max_ticks {
        &&& after == before
        &&& res is Err && res->Err_0.axis == FailureAxis::InternalInvariantBreach
            && res->Err_0.message@ == "ISE: Maximum tick count exceeded"@
    } else {
        match moved_clocks(before, now_ns) {
            None => after == before && res is Ok,
            Some(m) => advanced(m, after, inject_parity, res),
        }
    }
}

/// Counts of a run's evidence by class, its ticks and its injected faults.
#[derive(Clone, Debug)]
pub struct IseStatistics {
    pub total_ticks: u64,
    pub timing_ok_count: u64,
    pub timing_drift_count: u64,
    pub data_corruption_count: u64,
    pub injection_detected_count: u64,
    pub authority_inversion_count: u64,
    pub parity_errors_injected: u64,
    pub hash_errors_injected: u64,
    pub missed_syncs: u32,
}

impl IseStatistics {
    /// Every tick is accounted for by a class and missed syncs stay within the
    /// limit.
    pub fn is_compliant(&self) -> (res: bool)
        requires
            self.timing_ok_count + self.timing_drift_count + self.data_corruption_count
                + self.injection_detected_count + self.authority_inversion_count <= self.total_ticks,
        ensures
            res == (self.total_ticks == self.timing_ok_count + self.timing_drift_count
                + self.data_corruption_count + self.injection_detected_count
                + self.authority_inversion_count && self.missed_syncs <= ptp_constants::MAX_MISSED_SYNCS),
    {
        let unclassified = self.total_ticks - self.timing_ok_count - self.timing_drift_count
            - self.data_corruption_count - self.injection_detected_count - self.authority_inversion_count;
        unclassified == 0 && self.missed_syncs <= ptp_constants::MAX_MISSED_SYNCS
    }
}

impl IseHarness {
    /// One step: refused once the tick budget is spent; otherwise simulated time
    /// advances by the mode (1 ms per step, `factor` ms when accelerated, or up to
    /// the wall clock `now_ns` in real time, where a wall clock behind simulated
    /// time makes the step a no-op) and the tick is classified; `inject_parity`
    /// says whether a parity fault is injected on this tick.
    pub fn step_tick(&mut self, now_ns: u128, inject_parity: bool) -> (res: Result<(), SystemHalt>)
        requires
            step_in_range(old(self)@, now_ns),
        ensures
            stepped(old(self)@, final(self)@, now_ns, inject_parity, res),
    {
        if self.current_tick >= self.config.max_ticks {
            return Err(SystemHalt::new(FailureAxis::InternalInvariantBreach, "ISE: Maximum tick count exceeded"));
        }
        match self.config.mode {
            ExecutionMode::Step => {
                self.current_time_ns = self.current_time_ns + 1_000_000;
                self.reference_time_ns = self.reference_time_ns.saturating_add(1_000_000);
                self.advance_core(inject_parity)
            },
            ExecutionMode::Accelerated(factor) => {
                let delta_ns = (factor as u128) * 1_000_000;
                self.current_time_ns = self.current_time_ns + delta_ns;
                self.reference_time_ns = self.reference_time_ns.saturating_add(delta_ns);
                self.advance_core(inject_parity)
            },
            ExecutionMode::Realtime => {
                if now_ns < self.current_time_ns {
                    return Ok(());
                }
                self.current_time_ns = now_ns;
                self.advance_core(inject_parity)
            },
        }
    }

    /// Whether `step_tick(now_ns, ..)` stays within the machine limits.
    pub fn step_within_limits(&self, now_ns: u128) -> (res: bool)
        ensures
            res == step_in_range(self@, now_ns),
    {
        if self.current_tick >= self.config.max_ticks {
            return true;
        }
        let counters_ok = self.parity_error_count < u64::MAX && self.config.drift_injection_ppm != i32::MIN;
        match self.config.mode {
            ExecutionMode::Step => {
                if self.current_time_ns > u128::MAX - 1_000_000 {
                    return false;
                }
                let t = self.current_time_ns + 1_000_000;
                let r = self.reference_time_ns.saturating_add(1_000_000);
                phase_fits(t, r) && counters_ok
            },
            ExecutionMode::Accelerated(factor) => {
                let delta_ns = (factor as u128) * 1_000_000;
                if self.current_time_ns > u128::MAX - delta_ns {
                    return false;
                }
                let t = self.current_time_ns + delta_ns;
                let r = self.reference_time_ns.saturating_add(delta_ns);
                phase_fits(t, r) && counters_ok
            },
            ExecutionMode::Realtime => now_ns < self.current_time_ns || (phase_fits(now_ns, self.reference_time_ns)
                && counters_ok),
        }
    }

    /// The evidence recorded so far, oldest first.
    pub fn evidence_log(&self) -> (res: &VecDeque<TimingEvidence>)
        ensures
            res@ == self@.evidence,
    {
        &self.evidence_log
    }

    /// The current tick.
    pub fn current_tick(&self) -> (res: u64)
        ensures
            res == self@.current_tick,
    {
        self.current_tick
    }

    /// The current simulated time.
    pub fn current_time(&self) -> (res: CanonicalTime)
        ensures
            res@ == self@.current_time_ns,
    {
        CanonicalTime::from_nanos(self.current_time_ns)
    }

    /// The tick count, evidence counts by class, and fault counters.
    pub fn statistics(&self) -> (res: IseStatistics)
        ensures
            res.total_ticks == self@.current_tick,
            res.timing_ok_count == count_in_class(self@.evidence, 0),
            res.timing_drift_count == count_in_class(self@.evidence, 1),
            res.data_corruption_count == count_in_class(self@.evidence, 2),
            res.injection_detected_count == count_in_class(self@.evidence, 3),
            res.authority_inversion_count == count_in_class(self@.evidence, 4),
            res.timing_ok_count == self@.evidence.filter(
                |e: TimingEvidence| e.classification is TimingOk,
            ).len(),
            res.timing_drift_count == self@.evidence.filter(
                |e: TimingEvidence|
                    e.classification is TimingDriftPhase || e.classification is TimingDriftFrequency,
            ).len(),
            res.parity_errors_injected == self@.parity_error_count,
            res.hash_errors_injected == self@.hash_error_count,
            res.missed_syncs == self@.missed_syncs,
    {
        let ghost ev = self@.evidence;
        let mut counts: [u64; 5] = [0, 0, 0, 0, 0];
        let mut i: usize = 0;
        while i < self.evidence_log.len()
            invariant
                ev == self@.evidence,
                i <= ev.len(),
                forall|k: int| 0 <= k < 5 ==> #[trigger] counts@[k] == count_in_class(ev.take(i as int), k),
                forall|k: int| 0 <= k < 5 ==> counts@[k] <= i,
            decreases ev.len() - i,
        {
            let k: usize = match &self.evidence_log[i].classification {
                FailureClassification::TimingOk { .. } => 0,
                FailureClassification::TimingDriftPhase { .. } => 1,
                FailureClassification::TimingDriftFrequency { .. } => 1,
                FailureClassification::DataCorruption { .. } => 2,
                FailureClassification::InjectionDetected { .. } => 3,
                FailureClassification::AuthorityInversion { .. } => 4,
            };
            proof {
                assert(k == class_index(ev[i as int].classification));
                assert(ev.take(i + 1).drop_last() =~= ev.take(i as int));
                assert(ev.take(i + 1).last() == ev[i as int]);
            }
            let c = counts[k];
            counts[k] = c + 1;
            i += 1;
        }
        proof {
            assert(ev.take(i as int) =~= ev);
            lemma_class_counts(ev);
        }
        IseStatistics {
            total_ticks: self.current_tick,
            timing_ok_count: counts[0],
            timing_drift_count: counts[1],
            data_corruption_count: counts[2],
            injection_detected_count: counts[3],
            authority_inversion_count: counts[4],
            parity_errors_injected: self.parity_error_count,
            hash_errors_injected: self.hash_error_count,
            missed_syncs: self.missed_syncs,
        }
    }

    /// SHA-256 over every record's tick, time, phase offset and frequency offset.
    pub fn compute_fingerprint(&self) -> (res: Vec<u8>)
        ensures
            res@ == sha256(evidence_stream(self@.evidence)),
            res@.len() == 32,
    {
        let ghost ev = self@.evidence;
        let mut bytes: Vec<u8> = Vec::new();
        let mut i: usize = 0;
        while i < self.evidence_log.len()
            invariant
                ev == self@.evidence,
                i <= ev.len(),
                bytes@ == evidence_stream(ev.take(i as int)),
            decreases ev.len() - i,
        {
            let e = &self.evidence_log[i];
            push_le_bytes(&mut bytes, e.tick as u128, 8);
            push_le_bytes(&mut bytes, e.canonical_time_ns, 16);
            push_le_bytes(&mut bytes, e.phase_offset_ns as u128, 16);
            push_le_bytes(&mut bytes, (e.freq_offset_ppm as u32) as u128, 4);
            proof {
                assert(ev.take(i + 1).drop_last() =~= ev.take(i as int));
                assert(ev.take(i + 1).last() == ev[i as int]);
            }
            i += 1;
        }
        proof {
            assert(ev.take(i as int) =~= ev);
        }
        sha256_digest(bytes.as_slice())
    }
}

} // verus!

verus! {

/// In step mode a harness whose clocks agree keeps them in agreement: without an
/// injected parity fault and with the reported drift within tolerance, every step
/// within the tick budget succeeds and records good timing.
pub proof fn lemma_step_mode_keeps_sync(
    before: IseView,
    after: IseView,
    now_ns: u128,
    inject_parity: bool,
    res: Result<(), SystemHalt>,
)
    requires
        before.config.mode == ExecutionMode::Step,
        before.current_tick < before.config.max_ticks,
        before.current_time_ns == before.reference_time_ns,
        before.reference_time_ns + 1_000_000 <= u128::MAX,
        !(before.config.enable_parity_fault_injection && inject_parity),
        abs_int(freq_of(before.config) as int) <= ptp_constants::MAX_FREQUENCY_DRIFT_PPM,
        stepped(before, after, now_ns, inject_parity, res),
    ensures
        res is Ok,
        after.current_time_ns == after.reference_time_ns,
        after.current_tick == before.current_tick + 1,
        after.evidence.last().classification matches FailureClassification::TimingOk { .. },
{
    let m = moved_clocks(before, now_ns)->0;
    assert(m.current_time_ns == m.reference_time_ns);
    assert(phase_of(m) == 0);
}

} // verus!
