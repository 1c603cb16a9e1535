use containment_agent::diagnostics::LogMessage;
use containment_agent::errors::AgentError;
use containment_agent::guardian::{initialize, quarantine, GuardianConfig};
use containment_agent::layout::ProtectionUnit;
use containment_agent::orchestrator::{run_detection_cycle, tick};
use containment_agent::region::AccessKind;
use containment_agent::reporter::{FaultState, Reporter};
use containment_agent::sentinel::{MappedMemory, ScanWindow, UniqueMajorityScore};

const RAM_BASE: u32 = 0x2000_0000;
const RAM_SIZE: u32 = 512 * 1024;
const IMPLANT_OFFSET: u32 = 128 * 1024;

fn config() -> GuardianConfig {
    GuardianConfig { ram_base: RAM_BASE, ram_size: RAM_SIZE }
}

/// Simulated RAM: quiet zero-filled memory with a high-entropy payload
/// of `implant_len` distinct-heavy bytes at `IMPLANT_OFFSET`.
fn memory_with_implant(implant_len: usize) -> MappedMemory {
    let mut bytes = vec![0u8; RAM_SIZE as usize];
    for i in 0..implant_len {
        bytes[IMPLANT_OFFSET as usize + i] = (i % 251) as u8 ^ 0x5A;
    }
    MappedMemory { base: RAM_BASE, bytes }
}

#[test]
fn containment_sequence_reaches_halted_with_one_record() {
    // initialize -> quarantine(A, 512) -> read at A: the access is
    // blocked, the state runs Armed -> Faulted -> Halted, exactly one
    // fault record is produced, and nothing is emitted afterwards
    let mut unit = ProtectionUnit::new();
    let mut reporter = Reporter::new();
    initialize(&mut unit, &config()).unwrap();
    let address = RAM_BASE + IMPLANT_OFFSET;
    quarantine(&mut unit, address, 512).unwrap();
    assert_eq!(reporter.current_state(), FaultState::Armed);

    let granted = unit.check_access(address, AccessKind::Read);
    assert!(!granted);
    let emitted = reporter.handle_trap(0x0800_0042, Some(address), 1);
    assert!(emitted.is_some());
    assert_eq!(reporter.current_state(), FaultState::Halted);
    let record = reporter.fault_record().unwrap();
    assert_eq!(record.fault_address, Some(address));

    // no further log record is emitted after the terminal one
    assert!(reporter.handle_trap(0x0800_0042, Some(address), 2).is_none());
    assert_eq!(reporter.fault_record(), Some(record));
}

#[test]
fn full_cycle_contains_anomalous_window() {
    let mut unit = ProtectionUnit::new();
    let mut reporter = Reporter::new();
    // a 256-byte window can hold up to 256 distinct values: anomalous
    let memory = memory_with_implant(256);
    let window = ScanWindow { address: RAM_BASE + IMPLANT_OFFSET, length: 256 };
    let report = run_detection_cycle(
        &mut unit,
        &mut reporter,
        &config(),
        &memory,
        &window,
        &UniqueMajorityScore,
        0x0800_0042,
        1,
    )
    .unwrap();
    assert!(report.verdict.is_anomalous);
    assert!(report.verdict.unique_byte_count > 128);
    let slot = report.quarantined_slot.unwrap();
    assert_eq!(slot, 1);
    let record = report.fault_record.unwrap();
    assert_eq!(record.program_counter, 0x0800_0042);
    assert_eq!(record.fault_address, Some(window.address));
    assert_eq!(reporter.current_state(), FaultState::Halted);
    // four records: initialized, anomaly, quarantined, containment
    assert_eq!(report.logs.len(), 4);
    assert!(matches!(
        report.logs[3].message,
        LogMessage::ContainmentVerified { .. }
    ));
    // the quarantined range is unreadable, the rest of RAM still is not
    assert!(!unit.check_access(window.address, AccessKind::Read));
    assert!(unit.check_access(RAM_BASE, AccessKind::Read));
}

#[test]
fn cycle_on_quiet_window_leaves_reporter_armed() {
    let mut unit = ProtectionUnit::new();
    let mut reporter = Reporter::new();
    let memory = memory_with_implant(0);
    let window = ScanWindow { address: RAM_BASE, length: 512 };
    let report = run_detection_cycle(
        &mut unit,
        &mut reporter,
        &config(),
        &memory,
        &window,
        &UniqueMajorityScore,
        0x0800_0042,
        1,
    )
    .unwrap();
    assert!(!report.verdict.is_anomalous);
    assert!(report.quarantined_slot.is_none());
    assert!(report.fault_record.is_none());
    assert_eq!(report.logs.len(), 2);
    assert_eq!(reporter.current_state(), FaultState::Armed);
}

#[test]
fn cycle_rejects_unmapped_window_without_verdict() {
    let mut unit = ProtectionUnit::new();
    let mut reporter = Reporter::new();
    let memory = memory_with_implant(0);
    let window = ScanWindow { address: RAM_BASE + RAM_SIZE, length: 512 };
    let err = run_detection_cycle(
        &mut unit,
        &mut reporter,
        &config(),
        &memory,
        &window,
        &UniqueMajorityScore,
        0x0800_0042,
        1,
    )
    .unwrap_err();
    assert_eq!(err, AgentError::UnmappedScanWindow);
    assert_eq!(reporter.current_state(), FaultState::Armed);
}

#[test]
fn cycle_rejects_unsupported_configuration() {
    let mut unit = ProtectionUnit::new();
    let mut reporter = Reporter::new();
    let memory = memory_with_implant(0);
    let window = ScanWindow { address: RAM_BASE, length: 512 };
    let cfg = GuardianConfig { ram_base: RAM_BASE, ram_size: 1000 };
    let err = run_detection_cycle(
        &mut unit,
        &mut reporter,
        &cfg,
        &memory,
        &window,
        &UniqueMajorityScore,
        0x0800_0042,
        1,
    )
    .unwrap_err();
    assert_eq!(err, AgentError::InvalidRegionSize);
}

#[test]
fn cycle_rejects_anomalous_window_of_unsupported_length() {
    let mut unit = ProtectionUnit::new();
    let mut reporter = Reporter::new();
    // 48 distinct bytes in a 48-byte window: anomalous, but 48 is not a
    // supported region size
    let mut memory = memory_with_implant(0);
    for i in 0..48usize {
        memory.bytes[i] = i as u8;
    }
    let window = ScanWindow { address: RAM_BASE, length: 48 };
    let err = run_detection_cycle(
        &mut unit,
        &mut reporter,
        &config(),
        &memory,
        &window,
        &UniqueMajorityScore,
        0x0800_0042,
        1,
    )
    .unwrap_err();
    assert_eq!(err, AgentError::InvalidRegionSize);
    assert_eq!(reporter.current_state(), FaultState::Armed);
}

#[test]
fn tick_reports_rejected_and_exhausted_windows() {
    let mut unit = ProtectionUnit::new();
    initialize(&mut unit, &config()).unwrap();
    // distinct-heavy memory: every small window in it is anomalous
    let mut bytes = vec![0u8; RAM_SIZE as usize];
    for (i, b) in bytes.iter_mut().enumerate().take(4096) {
        *b = (i % 251) as u8;
    }
    let memory = MappedMemory { base: RAM_BASE, bytes };

    // 48 is anomalous but not a supported region size
    let mut windows = vec![ScanWindow { address: RAM_BASE, length: 48 }];
    // eight quarantinable windows for seven free slots
    for k in 0..8u32 {
        windows.push(ScanWindow { address: RAM_BASE + k * 64, length: 64 });
    }
    let events = tick(&mut unit, &memory, &windows, &UniqueMajorityScore);
    assert_eq!(events.len(), 9);
    assert_eq!(
        events[0].message,
        LogMessage::QuarantineRejected { address: RAM_BASE }
    );
    for k in 0..7u32 {
        assert_eq!(
            events[1 + k as usize].message,
            LogMessage::RegionQuarantined {
                address: RAM_BASE + k * 64,
                slot: 1 + k as usize,
            }
        );
    }
    assert_eq!(
        events[8].message,
        LogMessage::QuarantineSlotsExhausted { address: RAM_BASE + 7 * 64 }
    );
}

#[test]
fn tick_quarantines_new_windows_and_skips_known_ones() {
    let mut unit = ProtectionUnit::new();
    initialize(&mut unit, &config()).unwrap();
    let memory = memory_with_implant(256);
    let implant = ScanWindow { address: RAM_BASE + IMPLANT_OFFSET, length: 256 };
    let quiet = ScanWindow { address: RAM_BASE, length: 256 };
    let unmapped = ScanWindow { address: RAM_BASE + RAM_SIZE, length: 256 };
    let windows = vec![quiet, implant, unmapped];

    let events = tick(&mut unit, &memory, &windows, &UniqueMajorityScore);
    assert_eq!(events.len(), 3);
    assert_eq!(events[0].message, LogMessage::NoAnomaly { address: quiet.address });
    assert_eq!(
        events[1].message,
        LogMessage::RegionQuarantined { address: implant.address, slot: 1 }
    );
    assert_eq!(
        events[2].message,
        LogMessage::UnmappedWindowSkipped { address: unmapped.address }
    );

    // a second tick finds the implant already quarantined and skips it
    let events = tick(&mut unit, &memory, &windows, &UniqueMajorityScore);
    assert_eq!(events.len(), 3);
    assert_eq!(
        events[1].message,
        LogMessage::AlreadyQuarantined { address: implant.address, slot: 1 }
    );
    assert!(!unit.check_access(implant.address, AccessKind::Read));
}
