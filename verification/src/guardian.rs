use vstd::prelude::*;

use crate::errors::AgentError;
use crate::layout::{allows_access, slot_covers, ProtectionUnit, SLOT_COUNT};
use crate::region::{AccessKind, Region, RegionAttributes, RegionSize};

verus! {

/// Injected platform description: where RAM starts and how large it is.
/// Passing it in explicitly lets the same logic run against a simulated
/// protection unit and memory, independent of real hardware addresses.
#[derive(Clone, Copy, Debug, PartialEq, Eq, Structural)]
pub struct GuardianConfig {
    pub ram_base: u32,
    pub ram_size: u32,
}

/// Whether the platform can cover the whole RAM range in one region:
/// a supported region size, an aligned base, and a range inside the
/// 32-bit address space.
pub open spec fn init_ok(cfg: GuardianConfig) -> bool {
    &&& RegionSize::spec_from_bytes(cfg.ram_size as nat) is Some
    &&& cfg.ram_base as int % cfg.ram_size as int == 0
    &&& cfg.ram_base + cfg.ram_size <= 0x1_0000_0000
}

/// The default whole-RAM region: readable and writable, execute-prevented.
pub open spec fn default_region(cfg: GuardianConfig) -> Region {
    Region {
        base: cfg.ram_base,
        size: RegionSize::spec_from_bytes(cfg.ram_size as nat)->Some_0,
        attributes: RegionAttributes::spec_default_ram(),
    }
}

/// The layout `initialize` programs: the default region in slot 0,
/// every quarantine slot disabled.
pub open spec fn initialized_slots(cfg: GuardianConfig) -> Seq<Option<Region>> {
    Seq::new(
        SLOT_COUNT as nat,
        |i: int|
            if i == 0 {
                Some(default_region(cfg))
            } else {
                None
            },
    )
}

/// What `initialize` does to a slot sequence: a supported configuration
/// reprograms the whole layout; an unsupported one leaves it untouched.
pub open spec fn apply_initialize(
    slots: Seq<Option<Region>>,
    cfg: GuardianConfig,
) -> Seq<Option<Region>> {
    if init_ok(cfg) {
        initialized_slots(cfg)
    } else {
        slots
    }
}

/// Whether a quarantine request is a supported region: a supported size
/// class, a base aligned to it, and a range inside the address space.
pub open spec fn quarantine_ok(address: u32, size: u32) -> bool {
    &&& RegionSize::spec_from_bytes(size as nat) is Some
    &&& address as int % size as int == 0
    &&& address + size <= 0x1_0000_0000
}

/// The no-access region a quarantine request installs.
pub open spec fn quarantine_region(address: u32, size: u32) -> Region {
    Region {
        base: address,
        size: RegionSize::spec_from_bytes(size as nat)->Some_0,
        attributes: RegionAttributes::spec_no_access(),
    }
}

/// The lowest slot index at or above `i` (and above slot 0) already
/// holding exactly `region`.
pub open spec fn first_slot_holding(
    slots: Seq<Option<Region>>,
    region: Region,
    i: int,
) -> Option<int>
    decreases slots.len() - i,
{
    if i < 1 || i >= slots.len() {
        None
    } else if slots[i] == Some(region) {
        Some(i)
    } else {
        first_slot_holding(slots, region, i + 1)
    }
}

/// The lowest unused slot index at or above `i` (and above slot 0).
pub open spec fn first_free_slot(slots: Seq<Option<Region>>, i: int) -> Option<int>
    decreases slots.len() - i,
{
    if i < 1 || i >= slots.len() {
        None
    } else if slots[i] is None {
        Some(i)
    } else {
        first_free_slot(slots, i + 1)
    }
}

/// What `quarantine` does to a slot sequence. An invalid request changes
/// nothing; a range already quarantined is left exactly as it is
/// (idempotence); otherwise the region goes into the next unused slot,
/// never into slot 0; with no slot left, nothing changes.
pub open spec fn apply_quarantine(
    slots: Seq<Option<Region>>,
    address: u32,
    size: u32,
) -> Seq<Option<Region>> {
    if !quarantine_ok(address, size) {
        slots
    } else {
        let region = quarantine_region(address, size);
        if first_slot_holding(slots, region, 1) is Some {
            slots
        } else {
            match first_free_slot(slots, 1) {
                Some(k) => slots.update(k, Some(region)),
                None => slots,
            }
        }
    }
}

/// The Guardian's layout invariant once `initialize` has run: slot 0
/// holds the default whole-RAM region, and every programmed slot above it
/// is a well-formed all-blocking quarantine region.
pub open spec fn guardian_inv(slots: Seq<Option<Region>>, cfg: GuardianConfig) -> bool {
    &&& slots.len() == SLOT_COUNT
    &&& slots[0] == Some(default_region(cfg))
    &&& forall|j: int|
        1 <= j < slots.len() && (#[trigger] slots[j]) is Some ==> {
            &&& slots[j]->Some_0.attributes == RegionAttributes::spec_no_access()
            &&& slots[j]->Some_0.wf()
        }
}

/// Programs slot 0 to cover the full RAM range with read/write,
/// execute-prevented attributes, and disables every other slot. Must run
/// before any region is quarantined. Fails with `InvalidRegionSize`, and
/// changes nothing, exactly when the platform cannot cover RAM in one
/// region. Reprogramming an already-initialized unit with the same
/// configuration leaves its state unchanged.
///
/// Region reconfiguration is exclusively a normal-execution-context
/// operation: nothing on the trap path calls into the Guardian.
pub fn initialize(unit: &mut ProtectionUnit, cfg: &GuardianConfig) -> (r: Result<(), AgentError>)
    requires
        old(unit).wf(),
    ensures
        final(unit).wf(),
        final(unit)@ == apply_initialize(old(unit)@, *cfg),
        r is Ok <==> init_ok(*cfg),
        r is Err ==> r == Err::<(), AgentError>(AgentError::InvalidRegionSize),
        r is Ok ==> guardian_inv(final(unit)@, *cfg),
{
    let size_class = match RegionSize::from_bytes(cfg.ram_size) {
        Some(s) => s,
        None => {
            return Err(AgentError::InvalidRegionSize);
        },
    };
    if cfg.ram_base % cfg.ram_size != 0 {
        return Err(AgentError::InvalidRegionSize);
    }
    if (cfg.ram_base as u64) + (cfg.ram_size as u64) > 0x1_0000_0000u64 {
        return Err(AgentError::InvalidRegionSize);
    }
    let region = Region::new(cfg.ram_base, size_class, RegionAttributes::default_ram());
    unit.program_slot(0, Some(region));
    let mut i: usize = 1;
    while i < SLOT_COUNT
        invariant
            unit.wf(),
            1 <= i <= SLOT_COUNT,
            unit@[0] == Some(default_region(*cfg)),
            forall|j: int| 1 <= j < i ==> (#[trigger] unit@[j]) is None,
        decreases SLOT_COUNT - i,
    {
        unit.program_slot(i, None);
        i = i + 1;
    }
    proof {
        assert(unit@ =~= initialized_slots(*cfg));
    }
    Ok(())
}

/// Searches the quarantine slots for one already holding `region`,
/// mirroring `first_slot_holding`.
pub(crate) fn find_slot_holding(unit: &ProtectionUnit, region: &Region, i: usize) -> (r: Option<usize>)
    requires
        unit.wf(),
        1 <= i <= SLOT_COUNT,
    ensures
        match r {
            Some(k) => 1 <= k < SLOT_COUNT && first_slot_holding(unit@, *region, i as int)
                == Some(k as int),
            None => first_slot_holding(unit@, *region, i as int) is None,
        },
    decreases SLOT_COUNT - i,
{
    if i == SLOT_COUNT {
        None
    } else {
        let here = unit.slot(i);
        let matches_here = match here {
            Some(existing) => existing == *region,
            None => false,
        };
        if matches_here {
            Some(i)
        } else {
            find_slot_holding(unit, region, i + 1)
        }
    }
}

/// Searches for the next unused quarantine slot, mirroring
/// `first_free_slot`.
fn find_free_slot(unit: &ProtectionUnit, i: usize) -> (r: Option<usize>)
    requires
        unit.wf(),
        1 <= i <= SLOT_COUNT,
    ensures
        match r {
            Some(k) => 1 <= k < SLOT_COUNT && first_free_slot(unit@, i as int) == Some(k as int),
            None => first_free_slot(unit@, i as int) is None,
        },
    decreases SLOT_COUNT - i,
{
    if i == SLOT_COUNT {
        None
    } else {
        match unit.slot(i) {
            None => Some(i),
            Some(_) => find_free_slot(unit, i + 1),
        }
    }
}

/// Installs a no-access region covering exactly `[address, address +
/// size)` at the next unused slot above slot 0.
///
/// Fails with `InvalidRegionSize`, changing nothing, exactly when `size`
/// is not a supported region size, `address` is misaligned to it, or the
/// range leaves the address space; fails with `LayoutFull`, changing
/// nothing, exactly when the request is valid but every quarantine slot
/// is in use and none already holds the region. Re-quarantining the same
/// address and size finds the existing slot and leaves the programmed
/// state exactly as it was. On success the returned slot holds the
/// blocking region; `lemma_quarantine_blocks` turns that into the
/// guarantee that no access in the range is allowed.
///
/// Region reconfiguration is exclusively a normal-execution-context
/// operation: nothing on the trap path calls into the Guardian.
pub fn quarantine(unit: &mut ProtectionUnit, address: u32, size: u32) -> (r: Result<
    usize,
    AgentError,
>)
    requires
        old(unit).wf(),
    ensures
        final(unit).wf(),
        final(unit)@ == apply_quarantine(old(unit)@, address, size),
        r is Ok <==> quarantine_ok(address, size) && (first_slot_holding(
            old(unit)@,
            quarantine_region(address, size),
            1,
        ) is Some || first_free_slot(old(unit)@, 1) is Some),
        match r {
            Ok(k) => {
                &&& quarantine_ok(address, size)
                &&& 1 <= k < SLOT_COUNT
                &&& final(unit)@[k as int] == Some(quarantine_region(address, size))
                &&& (first_slot_holding(old(unit)@, quarantine_region(address, size), 1) == Some(
                    k as int,
                ) || (first_slot_holding(old(unit)@, quarantine_region(address, size), 1) is None
                    && first_free_slot(old(unit)@, 1) == Some(k as int)))
            },
            Err(e) => {
                &&& *final(unit) == *old(unit)
                &&& (e == AgentError::InvalidRegionSize <==> !quarantine_ok(address, size))
                &&& (e == AgentError::LayoutFull <==> quarantine_ok(address, size)
                    && first_slot_holding(old(unit)@, quarantine_region(address, size), 1) is None
                    && first_free_slot(old(unit)@, 1) is None)
            },
        },
{
    let size_class = match RegionSize::from_bytes(size) {
        Some(s) => s,
        None => {
            return Err(AgentError::InvalidRegionSize);
        },
    };
    if address % size != 0 {
        return Err(AgentError::InvalidRegionSize);
    }
    if (address as u64) + (size as u64) > 0x1_0000_0000u64 {
        return Err(AgentError::InvalidRegionSize);
    }
    let region = Region::new(address, size_class, RegionAttributes::no_access());
    match find_slot_holding(unit, &region, 1) {
        Some(k) => {
            proof {
                lemma_first_slot_holding_props(unit@, region, 1);
            }
            Ok(k)
        },
        None => {
            match find_free_slot(unit, 1) {
                Some(k) => {
                    unit.program_slot(k, Some(region));
                    Ok(k)
                },
                None => Err(AgentError::LayoutFull),
            }
        },
    }
}

/// Initializing twice with an identical configuration leaves the
/// protection-unit state unchanged: `initialize` is idempotent.
pub proof fn lemma_initialize_idempotent(slots: Seq<Option<Region>>, cfg: GuardianConfig)
    ensures
        apply_initialize(apply_initialize(slots, cfg), cfg) == apply_initialize(slots, cfg),
{
}

/// What a successful `first_slot_holding` search means: the found slot is
/// above slot 0, inside the layout, and holds the region.
proof fn lemma_first_slot_holding_props(slots: Seq<Option<Region>>, region: Region, i: int)
    requires
        1 <= i,
    ensures
        match first_slot_holding(slots, region, i) {
            Some(k) => i <= k < slots.len() && slots[k] == Some(region),
            None => true,
        },
    decreases slots.len() - i,
{
    if 1 <= i < slots.len() && slots[i] != Some(region) {
        lemma_first_slot_holding_props(slots, region, i + 1);
    }
}

/// A slot holding `region` at or above `i` makes `first_slot_holding`
/// find one.
proof fn lemma_holding_slot_found(slots: Seq<Option<Region>>, region: Region, i: int, j: int)
    requires
        1 <= i <= j < slots.len(),
        slots[j] == Some(region),
    ensures
        first_slot_holding(slots, region, i) is Some,
    decreases j - i,
{
    if slots[i] != Some(region) {
        lemma_holding_slot_found(slots, region, i + 1, j);
    }
}

/// Re-quarantining the same address and size overwrites the same slot
/// with identical state: `quarantine` is idempotent on the layout.
pub proof fn lemma_quarantine_idempotent(slots: Seq<Option<Region>>, address: u32, size: u32)
    ensures
        apply_quarantine(apply_quarantine(slots, address, size), address, size)
            == apply_quarantine(slots, address, size),
{
    if quarantine_ok(address, size) {
        let region = quarantine_region(address, size);
        let once = apply_quarantine(slots, address, size);
        if first_slot_holding(slots, region, 1) is None {
            match first_free_slot(slots, 1) {
                Some(k) => {
                    lemma_first_free_slot_in_range(slots, 1);
                    lemma_holding_slot_found(once, region, 1, k);
                },
                None => {},
            }
        }
    }
}

/// `first_free_slot` only returns indices above slot 0 and inside the
/// layout.
proof fn lemma_first_free_slot_in_range(slots: Seq<Option<Region>>, i: int)
    requires
        1 <= i,
    ensures
        match first_free_slot(slots, i) {
            Some(k) => i <= k < slots.len() && slots[k] is None,
            None => true,
        },
    decreases slots.len() - i,
{
    if 1 <= i < slots.len() && !(slots[i] is None) {
        lemma_first_free_slot_in_range(slots, i + 1);
    }
}

/// Quarantining preserves the Guardian's layout invariant: slot 0 is
/// never overwritten and every slot written above it blocks all access.
pub proof fn lemma_quarantine_preserves_inv(
    slots: Seq<Option<Region>>,
    cfg: GuardianConfig,
    address: u32,
    size: u32,
)
    requires
        guardian_inv(slots, cfg),
    ensures
        guardian_inv(apply_quarantine(slots, address, size), cfg),
{
    if quarantine_ok(address, size) {
        let region = quarantine_region(address, size);
        if first_slot_holding(slots, region, 1) is None {
            match first_free_slot(slots, 1) {
                Some(k) => {
                    lemma_first_free_slot_in_range(slots, 1);
                },
                None => {},
            }
        }
    }
}

/// Containment: once a quarantine region stands in a slot above slot 0 of
/// an initialized layout, every read, write, or execute access anywhere
/// in `[address, address + size)` is blocked; the protection unit traps
/// it before the access reaches memory.
pub proof fn lemma_quarantine_blocks(
    slots: Seq<Option<Region>>,
    cfg: GuardianConfig,
    address: u32,
    size: u32,
    k: int,
)
    requires
        guardian_inv(slots, cfg),
        quarantine_ok(address, size),
        1 <= k < slots.len(),
        slots[k] == Some(quarantine_region(address, size)),
    ensures
        forall|addr: int, kind: AccessKind|
            address <= addr < address + size ==> !allows_access(slots, addr, kind),
{
    assert forall|addr: int, kind: AccessKind|
        address <= addr < address + size implies !allows_access(slots, addr, kind) by {
        assert(quarantine_region(address, size).contains(addr));
        assert(slot_covers(slots[k], addr));
        crate::layout::lemma_covered_above_slot0_blocks(slots, addr, kind);
    }
}

} // verus!
