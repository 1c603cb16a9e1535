use vstd::prelude::*;

verus! {

/// Severity of a diagnostic record.
#[derive(Clone, Copy, Debug, PartialEq, Eq, Structural)]
pub enum Severity {
    Info,
    Warning,
    Error,
}

/// The component that produced a diagnostic record.
#[derive(Clone, Copy, Debug, PartialEq, Eq, Structural)]
pub enum Component {
    Guardian,
    Sentinel,
    Reporter,
    Orchestrator,
}

/// The structured message of a diagnostic record. The transport that
/// renders and carries these lines is an external collaborator; the
/// library only produces the records.
#[derive(Clone, Copy, Debug, PartialEq, Eq, Structural)]
pub enum LogMessage {
    /// The default protection layout has been programmed.
    ProtectionInitialized,
    /// The Sentinel classified a window as a high-entropy anomaly.
    AnomalyDetected { address: u32, unique_byte_count: usize },
    /// The Sentinel found nothing suspicious in a window.
    NoAnomaly { address: u32 },
    /// A scan window fell outside declared mapped memory and was skipped.
    UnmappedWindowSkipped { address: u32 },
    /// A window could not be quarantined because its address or length is
    /// not a supported aligned region.
    QuarantineRejected { address: u32 },
    /// A window could not be quarantined because every slot is in use.
    QuarantineSlotsExhausted { address: u32 },
    /// A no-access region now covers the address range.
    RegionQuarantined { address: u32, slot: usize },
    /// The range was already quarantined; the layout was left as it was.
    AlreadyQuarantined { address: u32, slot: usize },
    /// A blocked access was trapped: containment is verified and the
    /// system halts. The terminal record.
    ContainmentVerified { program_counter: u32 },
}

/// One structured diagnostic record: severity, component tag, message.
#[derive(Clone, Copy, Debug, PartialEq, Eq, Structural)]
pub struct LogRecord {
    pub severity: Severity,
    pub component: Component,
    pub message: LogMessage,
}

} // verus!
