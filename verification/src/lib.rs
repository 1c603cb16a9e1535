//! Runtime intrusion-containment agent for a single-core embedded target.
//!
//! The library detects foreign high-entropy payloads injected into RAM
//! (the Sentinel), isolates the offending region through a modelled
//! hardware memory-protection unit (the Guardian), and proves containment
//! by delivering the resulting access trap to a fail-closed fault state
//! machine (the Reporter). The Orchestrator sequences one
//! detection/containment/verification cycle and a periodic scanning tick.

pub mod errors;
pub mod region;
pub mod layout;
pub mod diagnostics;
pub mod reporter;
pub mod sentinel;
pub mod guardian;
pub mod orchestrator;
