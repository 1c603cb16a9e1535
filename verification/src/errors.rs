use vstd::prelude::*;

verus! {

/// Error kinds of the containment agent.
///
/// `InvalidRegionSize` is fatal at configuration time: an improperly
/// protected system must not proceed. `UnmappedScanWindow` is recoverable:
/// the caller is responsible for supplying a window inside mapped memory.
/// `LayoutFull` reports that every quarantine slot of the protection unit
/// is already in use.
#[derive(Clone, Copy, Debug, PartialEq, Eq, Structural)]
pub enum AgentError {
    /// The requested region size is unsupported, or the base address is
    /// misaligned to it.
    InvalidRegionSize,
    /// The scan window does not lie entirely within declared mapped memory.
    UnmappedScanWindow,
    /// No free quarantine slot is left in the protection layout.
    LayoutFull,
}

} // verus!
