use vstd::prelude::*;

use crate::diagnostics::{Component, LogMessage, LogRecord, Severity};
use crate::errors::AgentError;
use crate::guardian::{
    apply_initialize, apply_quarantine, find_slot_holding, first_free_slot, first_slot_holding,
    guardian_inv, init_ok, initialize, initialized_slots, lemma_quarantine_blocks,
    lemma_quarantine_preserves_inv, quarantine, quarantine_ok, quarantine_region, GuardianConfig,
};
use crate::layout::{allows_access, ProtectionUnit, SLOT_COUNT};
use crate::region::{AccessKind, Region, RegionAttributes, RegionSize};
use crate::reporter::{
    count_fault_transitions, fsm_step, lemma_never_rearmed,
    lemma_no_fault_transition_when_disarmed, run_events, violation_event, FaultEvent, FaultRecord,
    FaultState, Reporter,
};
use crate::sentinel::{
    distinct_count, scan_with, AnomalyVerdict, MappedMemory, ScanWindow, ScoringPolicy,
};

verus! {

/// The record emitted when the default protection layout is programmed.
pub open spec fn log_initialized() -> LogRecord {
    LogRecord {
        severity: Severity::Info,
        component: Component::Guardian,
        message: LogMessage::ProtectionInitialized,
    }
}

/// The record emitted for a window found unsuspicious.
pub open spec fn log_no_anomaly(address: u32) -> LogRecord {
    LogRecord {
        severity: Severity::Info,
        component: Component::Sentinel,
        message: LogMessage::NoAnomaly { address },
    }
}

/// The record emitted for a window classified as anomalous.
pub open spec fn log_anomaly(address: u32, unique_byte_count: usize) -> LogRecord {
    LogRecord {
        severity: Severity::Warning,
        component: Component::Sentinel,
        message: LogMessage::AnomalyDetected { address, unique_byte_count },
    }
}

/// The record emitted when a window is skipped as unmapped.
pub open spec fn log_unmapped(address: u32) -> LogRecord {
    LogRecord {
        severity: Severity::Warning,
        component: Component::Orchestrator,
        message: LogMessage::UnmappedWindowSkipped { address },
    }
}

/// The record emitted when a flagged window is not a quarantinable region.
pub open spec fn log_rejected(address: u32) -> LogRecord {
    LogRecord {
        severity: Severity::Error,
        component: Component::Guardian,
        message: LogMessage::QuarantineRejected { address },
    }
}

/// The record emitted when no quarantine slot is left for a flagged
/// window.
pub open spec fn log_exhausted(address: u32) -> LogRecord {
    LogRecord {
        severity: Severity::Error,
        component: Component::Guardian,
        message: LogMessage::QuarantineSlotsExhausted { address },
    }
}

/// The record emitted when a window is newly quarantined.
pub open spec fn log_quarantined(address: u32, slot: usize) -> LogRecord {
    LogRecord {
        severity: Severity::Warning,
        component: Component::Guardian,
        message: LogMessage::RegionQuarantined { address, slot },
    }
}

/// The record emitted when a flagged window was already quarantined.
pub open spec fn log_already_quarantined(address: u32, slot: usize) -> LogRecord {
    LogRecord {
        severity: Severity::Info,
        component: Component::Guardian,
        message: LogMessage::AlreadyQuarantined { address, slot },
    }
}

/// Whether a window can be turned into a quarantine request: its length
/// fits the request type and names a supported region aligned to its
/// address.
pub open spec fn window_quarantine_ok(w: ScanWindow) -> bool {
    &&& w.length <= 0xFFFF_FFFF
    &&& quarantine_ok(w.address, w.length as u32)
}

/// Whether the scoring policy flags the window as anomalous. The policy
/// is a parameter of the whole pipeline, so a stronger entropy estimator
/// substitutes without touching anything else.
pub open spec fn window_flagged<P: ScoringPolicy>(
    policy: P,
    memory: MappedMemory,
    w: ScanWindow,
) -> bool {
    policy.classifies(distinct_count(memory.window_bytes(w)), w.length as nat)
}

/// The outcome of one detection/containment/verification cycle.
#[derive(Debug)]
pub struct CycleReport {
    /// The Sentinel's verdict over the scanned window.
    pub verdict: AnomalyVerdict,
    /// The slot the quarantine region was installed into, if any.
    pub quarantined_slot: Option<usize>,
    /// The fault record captured by the verification trap, if any.
    pub fault_record: Option<FaultRecord>,
    /// The diagnostic records of the cycle, in order of emission.
    pub logs: Vec<LogRecord>,
}

/// Drives one detection cycle: initialize the Guardian, scan the window,
/// and on a positive verdict quarantine it and issue one deliberate read
/// into the quarantined range. The protection unit provably blocks that
/// read, so the trap is delivered to the Reporter, which captures the
/// fault record, emits the one terminal containment record, and halts.
///
/// Success is owed exactly when the configuration is supported, the
/// window is mapped, and, if the window is anomalous, it is also a
/// quarantinable region. A benign window leaves the Reporter untouched
/// and armed. Errors leave the protection unit initialized (or untouched,
/// when initialization itself failed) and the Reporter unchanged.
pub fn run_detection_cycle<P: ScoringPolicy>(
    unit: &mut ProtectionUnit,
    reporter: &mut Reporter,
    cfg: &GuardianConfig,
    memory: &MappedMemory,
    window: &ScanWindow,
    policy: &P,
    verification_pc: u32,
    sequence: u64,
) -> (r: Result<CycleReport, AgentError>)
    requires
        old(unit).wf(),
        old(reporter).wf(),
        old(reporter).state() is Armed,
    ensures
        final(unit).wf(),
        final(reporter).wf(),
        r is Ok <==> init_ok(*cfg) && memory.window_in_range(*window) && (window_flagged(
            *policy,
            *memory,
            *window,
        ) ==> window_quarantine_ok(*window)),
        match r {
            Ok(report) => {
                &&& report.verdict.window_length == window.length
                &&& report.verdict.unique_byte_count == distinct_count(
                    memory.window_bytes(*window),
                )
                &&& report.verdict.is_anomalous == window_flagged(*policy, *memory, *window)
                &&& if window_flagged(*policy, *memory, *window) {
                    &&& final(unit)@ == apply_quarantine(
                        initialized_slots(*cfg),
                        window.address,
                        window.length as u32,
                    )
                    &&& report.quarantined_slot is Some
                    &&& 1 <= report.quarantined_slot->0 < SLOT_COUNT
                    &&& final(unit)@[report.quarantined_slot->0 as int] == Some(
                        quarantine_region(window.address, window.length as u32),
                    )
                    &&& final(reporter).state() is Halted
                    &&& final(reporter).record() == Some(
                        crate::reporter::captured_record(
                            verification_pc,
                            Some(window.address),
                            sequence,
                        ),
                    )
                    &&& report.fault_record == final(reporter).record()
                    &&& report.logs@ == seq![
                        log_initialized(),
                        log_anomaly(window.address, report.verdict.unique_byte_count),
                        log_quarantined(window.address, report.quarantined_slot->0),
                        crate::reporter::containment_log(verification_pc),
                    ]
                } else {
                    &&& final(unit)@ == initialized_slots(*cfg)
                    &&& report.quarantined_slot is None
                    &&& report.fault_record is None
                    &&& *final(reporter) == *old(reporter)
                    &&& report.logs@ == seq![log_initialized(), log_no_anomaly(window.address)]
                }
            },
            Err(e) => {
                &&& *final(reporter) == *old(reporter)
                &&& final(unit)@ == apply_initialize(old(unit)@, *cfg)
                &&& (e == AgentError::UnmappedScanWindow <==> init_ok(*cfg)
                    && !memory.window_in_range(*window))
                &&& (e == AgentError::InvalidRegionSize <==> !init_ok(*cfg) || (
                memory.window_in_range(*window) && window_flagged(*policy, *memory, *window)
                    && !window_quarantine_ok(*window)))
                &&& e != AgentError::LayoutFull
            },
        },
{
    if let Err(e) = initialize(unit, cfg) {
        return Err(e);
    }
    let verdict = match scan_with(memory, window, policy) {
        Ok(v) => v,
        Err(e) => {
            return Err(e);
        },
    };
    let mut logs: Vec<LogRecord> = Vec::new();
    logs.push(
        LogRecord {
            severity: Severity::Info,
            component: Component::Guardian,
            message: LogMessage::ProtectionInitialized,
        },
    );
    if !verdict.is_anomalous {
        logs.push(
            LogRecord {
                severity: Severity::Info,
                component: Component::Sentinel,
                message: LogMessage::NoAnomaly { address: window.address },
            },
        );
        proof {
            assert(logs@ =~= seq![log_initialized(), log_no_anomaly(window.address)]);
        }
        return Ok(
            CycleReport { verdict, quarantined_slot: None, fault_record: None, logs },
        );
    }
    logs.push(
        LogRecord {
            severity: Severity::Warning,
            component: Component::Sentinel,
            message: LogMessage::AnomalyDetected {
                address: window.address,
                unique_byte_count: verdict.unique_byte_count,
            },
        },
    );
    if window.length > 0xFFFF_FFFFusize {
        return Err(AgentError::InvalidRegionSize);
    }
    let quarantine_size = window.length as u32;
    let slot = match quarantine(unit, window.address, quarantine_size) {
        Ok(k) => k,
        Err(e) => {
            proof {
                // slot 1 of a freshly initialized layout is free, so the
                // layout can never be full here
                assert(first_free_slot(initialized_slots(*cfg), 1) == Some(1int));
            }
            return Err(e);
        },
    };
    logs.push(
        LogRecord {
            severity: Severity::Warning,
            component: Component::Guardian,
            message: LogMessage::RegionQuarantined { address: window.address, slot },
        },
    );
    proof {
        lemma_quarantine_preserves_inv(
            initialized_slots(*cfg),
            *cfg,
            window.address,
            quarantine_size,
        );
        lemma_quarantine_blocks(unit@, *cfg, window.address, quarantine_size, slot as int);
        assert(quarantine_size >= 32);
    }
    // the deliberate verification access: provably blocked, so the trap
    // handler runs instead of the access completing
    let granted = unit.check_access(window.address, AccessKind::Read);
    assert(!granted);
    let emitted = reporter.handle_trap(verification_pc, Some(window.address), sequence);
    if let Some(record) = emitted {
        logs.push(record);
    }
    proof {
        assert(logs@ =~= seq![
            log_initialized(),
            log_anomaly(window.address, verdict.unique_byte_count),
            log_quarantined(window.address, slot),
            crate::reporter::containment_log(verification_pc),
        ]);
    }
    let fault_record = reporter.fault_record();
    Ok(CycleReport { verdict, quarantined_slot: Some(slot), fault_record, logs })
}

/// What one tick step does to the layout for one candidate window: a
/// mapped, anomalous, quarantinable window is quarantined; anything else
/// leaves the layout as it is.
pub open spec fn window_step_slots<P: ScoringPolicy>(
    slots: Seq<Option<Region>>,
    memory: MappedMemory,
    w: ScanWindow,
    policy: P,
) -> Seq<Option<Region>> {
    if memory.window_in_range(w) && window_flagged(policy, memory, w) && window_quarantine_ok(w) {
        apply_quarantine(slots, w.address, w.length as u32)
    } else {
        slots
    }
}

/// The event one tick step forwards to the diagnostic sink for one
/// candidate window.
pub open spec fn window_event<P: ScoringPolicy>(
    slots: Seq<Option<Region>>,
    memory: MappedMemory,
    w: ScanWindow,
    policy: P,
) -> LogRecord {
    if !memory.window_in_range(w) {
        log_unmapped(w.address)
    } else if !window_flagged(policy, memory, w) {
        log_no_anomaly(w.address)
    } else if !window_quarantine_ok(w) {
        log_rejected(w.address)
    } else {
        match first_slot_holding(slots, quarantine_region(w.address, w.length as u32), 1) {
            Some(k) => log_already_quarantined(w.address, k as usize),
            None => match first_free_slot(slots, 1) {
                Some(k) => log_quarantined(w.address, k as usize),
                None => log_exhausted(w.address),
            },
        }
    }
}

/// The layout after one tick over all candidate windows, in order.
pub open spec fn tick_slots<P: ScoringPolicy>(
    slots: Seq<Option<Region>>,
    memory: MappedMemory,
    windows: Seq<ScanWindow>,
    policy: P,
) -> Seq<Option<Region>>
    decreases windows.len(),
{
    if windows.len() == 0 {
        slots
    } else {
        tick_slots(
            window_step_slots(slots, memory, windows.first(), policy),
            memory,
            windows.drop_first(),
            policy,
        )
    }
}

/// The events one tick forwards to the diagnostic sink, one per window,
/// in order.
pub open spec fn tick_events<P: ScoringPolicy>(
    slots: Seq<Option<Region>>,
    memory: MappedMemory,
    windows: Seq<ScanWindow>,
    policy: P,
) -> Seq<LogRecord>
    decreases windows.len(),
{
    if windows.len() == 0 {
        Seq::empty()
    } else {
        seq![window_event(slots, memory, windows.first(), policy)] + tick_events(
            window_step_slots(slots, memory, windows.first(), policy),
            memory,
            windows.drop_first(),
            policy,
        )
    }
}

/// Processes one candidate window of a tick: scan it, quarantine it if it
/// is newly flagged, skip it if it is already quarantined, and report the
/// outcome as one diagnostic event.
fn tick_window<P: ScoringPolicy>(
    unit: &mut ProtectionUnit,
    memory: &MappedMemory,
    w: &ScanWindow,
    policy: &P,
) -> (event: LogRecord)
    requires
        old(unit).wf(),
    ensures
        final(unit).wf(),
        final(unit)@ == window_step_slots(old(unit)@, *memory, *w, *policy),
        event == window_event(old(unit)@, *memory, *w, *policy),
{
    let verdict = match scan_with(memory, w, policy) {
        Ok(v) => v,
        Err(_) => {
            return LogRecord {
                severity: Severity::Warning,
                component: Component::Orchestrator,
                message: LogMessage::UnmappedWindowSkipped { address: w.address },
            };
        },
    };
    if !verdict.is_anomalous {
        return LogRecord {
            severity: Severity::Info,
            component: Component::Sentinel,
            message: LogMessage::NoAnomaly { address: w.address },
        };
    }
    if w.length > 0xFFFF_FFFFusize {
        return LogRecord {
            severity: Severity::Error,
            component: Component::Guardian,
            message: LogMessage::QuarantineRejected { address: w.address },
        };
    }
    let quarantine_size = w.length as u32;
    let size_class = match RegionSize::from_bytes(quarantine_size) {
        Some(s) => s,
        None => {
            return LogRecord {
                severity: Severity::Error,
                component: Component::Guardian,
                message: LogMessage::QuarantineRejected { address: w.address },
            };
        },
    };
    if w.address % quarantine_size != 0 || (w.address as u64) + (quarantine_size as u64)
        > 0x1_0000_0000u64 {
        return LogRecord {
            severity: Severity::Error,
            component: Component::Guardian,
            message: LogMessage::QuarantineRejected { address: w.address },
        };
    }
    let region = Region::new(w.address, size_class, RegionAttributes::no_access());
    match find_slot_holding(unit, &region, 1) {
        Some(k) => {
            // already quarantined: skip reprogramming identical state
            LogRecord {
                severity: Severity::Info,
                component: Component::Guardian,
                message: LogMessage::AlreadyQuarantined { address: w.address, slot: k },
            }
        },
        None => {
            match quarantine(unit, w.address, quarantine_size) {
                Ok(k) => LogRecord {
                    severity: Severity::Warning,
                    component: Component::Guardian,
                    message: LogMessage::RegionQuarantined { address: w.address, slot: k },
                },
                Err(_) => LogRecord {
                    severity: Severity::Error,
                    component: Component::Guardian,
                    message: LogMessage::QuarantineSlotsExhausted { address: w.address },
                },
            }
        },
    }
}

/// One periodic tick of the agent: scans every configured candidate
/// window in order, quarantines newly flagged ones, skipping windows
/// already quarantined, and returns the events to forward to the
/// diagnostic sink, one per window.
pub fn tick<P: ScoringPolicy>(
    unit: &mut ProtectionUnit,
    memory: &MappedMemory,
    windows: &Vec<ScanWindow>,
    policy: &P,
) -> (events: Vec<LogRecord>)
    requires
        old(unit).wf(),
    ensures
        final(unit).wf(),
        final(unit)@ == tick_slots(old(unit)@, *memory, windows@, *policy),
        events@ == tick_events(old(unit)@, *memory, windows@, *policy),
{
    let ghost orig = unit@;
    let mut events: Vec<LogRecord> = Vec::new();
    let mut i: usize = 0;
    proof {
        assert(windows@.skip(0) =~= windows@);
    }
    while i < windows.len()
        invariant
            unit.wf(),
            i <= windows@.len(),
            tick_slots(unit@, *memory, windows@.skip(i as int), *policy) == tick_slots(
                orig,
                *memory,
                windows@,
                *policy,
            ),
            events@ + tick_events(unit@, *memory, windows@.skip(i as int), *policy) == tick_events(
                orig,
                *memory,
                windows@,
                *policy,
            ),
        decreases windows@.len() - i,
    {
        let w = windows[i];
        proof {
            assert(windows@.skip(i as int).first() == windows@[i as int]);
            assert(windows@.skip(i as int).drop_first() =~= windows@.skip(i as int + 1));
        }
        let ghost pre = unit@;
        let ghost events_pre = events@;
        let event = tick_window(unit, memory, &w, policy);
        events.push(event);
        i = i + 1;
        proof {
            assert(events_pre + (seq![event] + tick_events(
                unit@,
                *memory,
                windows@.skip(i as int),
                *policy,
            )) =~= events@ + tick_events(unit@, *memory, windows@.skip(i as int), *policy));
        }
    }
    proof {
        assert(windows@.skip(windows@.len() as int) =~= Seq::<ScanWindow>::empty());
    }
    events
}

/// Containment, end to end: once `quarantine(address, size)` has placed
/// its region in a slot of an initialized layout, every read, write, or
/// execute access in `[address, address + size)` is blocked by the
/// protection unit, the resulting trap performs the one and only
/// `Armed -> Faulted` transition of the whole run, and the machine never
/// returns to `Armed`, whatever events follow.
pub proof fn lemma_quarantined_access_faults_once(
    slots: Seq<Option<Region>>,
    cfg: GuardianConfig,
    address: u32,
    size: u32,
    k: int,
    program_counter: u32,
    fault_address: Option<u32>,
    later_events: Seq<FaultEvent>,
)
    requires
        guardian_inv(slots, cfg),
        quarantine_ok(address, size),
        1 <= k < slots.len(),
        slots[k] == Some(quarantine_region(address, size)),
    ensures
        forall|addr: int, kind: AccessKind|
            address <= addr < address + size ==> !allows_access(slots, addr, kind),
        fsm_step(FaultState::Armed, violation_event(program_counter, fault_address)) is Faulted,
        count_fault_transitions(
            FaultState::Armed,
            seq![violation_event(program_counter, fault_address)] + later_events,
        ) == 1,
        !(run_events(
            FaultState::Armed,
            seq![violation_event(program_counter, fault_address)] + later_events,
        ) is Armed),
{
    lemma_quarantine_blocks(slots, cfg, address, size, k);
    let ev = violation_event(program_counter, fault_address);
    let evs = seq![ev] + later_events;
    assert(evs.first() == ev);
    assert(evs.drop_first() =~= later_events);
    lemma_no_fault_transition_when_disarmed(FaultState::Faulted, later_events);
    lemma_never_rearmed(FaultState::Faulted, later_events);
    assert(count_fault_transitions(FaultState::Armed, evs) == 1 + count_fault_transitions(
        FaultState::Faulted,
        later_events,
    ));
    assert(run_events(FaultState::Armed, evs) == run_events(FaultState::Faulted, later_events));
}

} // verus!
