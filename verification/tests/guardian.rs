use containment_agent::errors::AgentError;
use containment_agent::guardian::{initialize, quarantine, GuardianConfig};
use containment_agent::layout::{ProtectionUnit, SLOT_COUNT};
use containment_agent::region::AccessKind;

const RAM_BASE: u32 = 0x2000_0000;
const RAM_SIZE: u32 = 512 * 1024;

fn config() -> GuardianConfig {
    GuardianConfig { ram_base: RAM_BASE, ram_size: RAM_SIZE }
}

fn snapshot(unit: &ProtectionUnit) -> Vec<containment_agent::region::Region> {
    let mut regions = Vec::new();
    for i in 0..SLOT_COUNT {
        if let Some(region) = unit.slot(i) {
            regions.push(region);
        }
    }
    regions
}

#[test]
fn initialize_programs_default_slot() {
    let mut unit = ProtectionUnit::new();
    initialize(&mut unit, &config()).unwrap();
    let default = unit.slot(0).unwrap();
    assert_eq!(default.base, RAM_BASE);
    assert!(default.attributes.readable);
    assert!(default.attributes.writable);
    assert!(!default.attributes.executable);
    for i in 1..SLOT_COUNT {
        assert!(unit.slot(i).is_none());
    }
}

#[test]
fn initialize_twice_leaves_state_unchanged() {
    let mut unit = ProtectionUnit::new();
    initialize(&mut unit, &config()).unwrap();
    let before = snapshot(&unit);
    initialize(&mut unit, &config()).unwrap();
    assert_eq!(snapshot(&unit), before);
}

#[test]
fn initialize_rejects_unsupported_ram_size() {
    let mut unit = ProtectionUnit::new();
    let cfg = GuardianConfig { ram_base: RAM_BASE, ram_size: 3 };
    assert_eq!(initialize(&mut unit, &cfg), Err(AgentError::InvalidRegionSize));
    for i in 0..SLOT_COUNT {
        assert!(unit.slot(i).is_none());
    }
}

#[test]
fn initialize_rejects_misaligned_ram_base() {
    let mut unit = ProtectionUnit::new();
    let cfg = GuardianConfig { ram_base: RAM_BASE + 1024, ram_size: RAM_SIZE };
    assert_eq!(initialize(&mut unit, &cfg), Err(AgentError::InvalidRegionSize));
}

#[test]
fn quarantine_installs_no_access_region() {
    let mut unit = ProtectionUnit::new();
    initialize(&mut unit, &config()).unwrap();
    let address = RAM_BASE + 128 * 1024;
    let slot = quarantine(&mut unit, address, 512).unwrap();
    assert_eq!(slot, 1);
    let region = unit.slot(slot).unwrap();
    assert_eq!(region.base, address);
    assert!(!region.attributes.readable);
    assert!(!region.attributes.writable);
    assert!(!region.attributes.executable);
}

#[test]
fn quarantine_blocks_all_access_kinds_in_range() {
    let mut unit = ProtectionUnit::new();
    initialize(&mut unit, &config()).unwrap();
    let address = RAM_BASE + 128 * 1024;
    quarantine(&mut unit, address, 512).unwrap();
    for probe in [address, address + 1, address + 511] {
        assert!(!unit.check_access(probe, AccessKind::Read));
        assert!(!unit.check_access(probe, AccessKind::Write));
        assert!(!unit.check_access(probe, AccessKind::Execute));
    }
    // just outside the quarantined range the default region still decides
    assert!(unit.check_access(address + 512, AccessKind::Read));
    assert!(unit.check_access(address - 1, AccessKind::Write));
}

#[test]
fn default_region_allows_read_write_but_not_execute() {
    let mut unit = ProtectionUnit::new();
    initialize(&mut unit, &config()).unwrap();
    assert!(unit.check_access(RAM_BASE, AccessKind::Read));
    assert!(unit.check_access(RAM_BASE + RAM_SIZE - 1, AccessKind::Write));
    assert!(!unit.check_access(RAM_BASE, AccessKind::Execute));
    // addresses outside every region are blocked
    assert!(!unit.check_access(RAM_BASE - 1, AccessKind::Read));
    assert!(!unit.check_access(RAM_BASE + RAM_SIZE, AccessKind::Read));
}

#[test]
fn quarantine_same_range_twice_is_idempotent() {
    let mut unit = ProtectionUnit::new();
    initialize(&mut unit, &config()).unwrap();
    let address = RAM_BASE + 64 * 1024;
    let first = quarantine(&mut unit, address, 1024).unwrap();
    let before = snapshot(&unit);
    let second = quarantine(&mut unit, address, 1024).unwrap();
    assert_eq!(first, second);
    assert_eq!(snapshot(&unit), before);
}

#[test]
fn quarantine_rejects_unsupported_size() {
    let mut unit = ProtectionUnit::new();
    initialize(&mut unit, &config()).unwrap();
    assert_eq!(
        quarantine(&mut unit, RAM_BASE, 100),
        Err(AgentError::InvalidRegionSize)
    );
}

#[test]
fn quarantine_rejects_misaligned_address() {
    let mut unit = ProtectionUnit::new();
    initialize(&mut unit, &config()).unwrap();
    assert_eq!(
        quarantine(&mut unit, RAM_BASE + 256, 512),
        Err(AgentError::InvalidRegionSize)
    );
}

#[test]
fn quarantine_reports_layout_full() {
    let mut unit = ProtectionUnit::new();
    initialize(&mut unit, &config()).unwrap();
    // fill all seven quarantine slots with distinct ranges
    for i in 0..(SLOT_COUNT - 1) {
        let address = RAM_BASE + (i as u32) * 512;
        quarantine(&mut unit, address, 512).unwrap();
    }
    let extra = RAM_BASE + 16 * 1024;
    assert_eq!(quarantine(&mut unit, extra, 512), Err(AgentError::LayoutFull));
    // an already-quarantined range still succeeds on a full layout
    assert_eq!(quarantine(&mut unit, RAM_BASE, 512), Ok(1));
}
