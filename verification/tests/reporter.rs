use containment_agent::diagnostics::{Component, LogMessage, Severity};
use containment_agent::reporter::{FaultState, Reporter};

#[test]
fn reporter_starts_armed_without_record() {
    let reporter = Reporter::new();
    assert_eq!(reporter.current_state(), FaultState::Armed);
    assert!(reporter.fault_record().is_none());
}

#[test]
fn trap_from_armed_captures_record_and_halts() {
    let mut reporter = Reporter::new();
    let emitted = reporter.handle_trap(0x0800_1234, Some(0x2002_0000), 7);
    let log = emitted.expect("the handler emits exactly one terminal record");
    assert_eq!(log.severity, Severity::Error);
    assert_eq!(log.component, Component::Reporter);
    assert_eq!(
        log.message,
        LogMessage::ContainmentVerified { program_counter: 0x0800_1234 }
    );
    assert_eq!(reporter.current_state(), FaultState::Halted);
    let record = reporter.fault_record().expect("exactly one fault record exists");
    assert_eq!(record.program_counter, 0x0800_1234);
    assert_eq!(record.fault_address, Some(0x2002_0000));
    assert_eq!(record.sequence, 7);
}

#[test]
fn second_trap_changes_nothing_and_emits_nothing() {
    let mut reporter = Reporter::new();
    let first = reporter.handle_trap(0x0800_1234, Some(0x2002_0000), 1);
    assert!(first.is_some());
    let record_after_first = reporter.fault_record();
    let second = reporter.handle_trap(0x0800_9999, Some(0x2003_0000), 2);
    assert!(second.is_none());
    assert_eq!(reporter.current_state(), FaultState::Halted);
    assert_eq!(reporter.fault_record(), record_after_first);
}
