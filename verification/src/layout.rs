use vstd::prelude::*;

use crate::region::{AccessKind, Region};

verus! {

/// Number of region slots the protection hardware provides.
pub const SLOT_COUNT: usize = 8;

/// Whether a programmed slot covers the address.
pub open spec fn slot_covers(slot: Option<Region>, addr: int) -> bool {
    match slot {
        Some(r) => r.contains(addr),
        None => false,
    }
}

/// The access decision of a slot sequence: the highest-index programmed
/// slot that covers the address decides; an address no slot covers is
/// blocked. Higher slot index overrides lower on overlapping addresses.
pub open spec fn allows_access(slots: Seq<Option<Region>>, addr: int, kind: AccessKind) -> bool
    decreases slots.len(),
{
    if slots.len() == 0 {
        false
    } else if slot_covers(slots.last(), addr) {
        slots.last()->Some_0.attributes.allows(kind)
    } else {
        allows_access(slots.drop_last(), addr, kind)
    }
}

/// The owned handle to the protection unit: an ordered, fixed-capacity
/// list of region slots. Passed explicitly into the Guardian so that a
/// simulated unit can stand in for the hardware one.
pub struct ProtectionUnit {
    slots: Vec<Option<Region>>,
}

impl ProtectionUnit {
    /// The programmed layout, one entry per hardware slot.
    pub closed spec fn view(&self) -> Seq<Option<Region>> {
        self.slots@
    }

    /// The protection unit always has exactly `SLOT_COUNT` slots.
    pub open spec fn wf(&self) -> bool {
        self@.len() == SLOT_COUNT
    }

    /// A fresh protection unit with every slot disabled.
    pub fn new() -> (r: ProtectionUnit)
        ensures
            r.wf(),
            r@.len() == SLOT_COUNT,
            forall|i: int| 0 <= i < SLOT_COUNT ==> r@[i] is None,
    {
        let mut slots: Vec<Option<Region>> = Vec::new();
        while slots.len() < SLOT_COUNT
            invariant
                slots@.len() <= SLOT_COUNT,
                forall|i: int| 0 <= i < slots@.len() ==> slots@[i] is None,
            decreases SLOT_COUNT - slots.len(),
        {
            slots.push(None);
        }
        ProtectionUnit { slots }
    }

    /// The descriptor currently programmed into a slot.
    pub fn slot(&self, index: usize) -> (r: Option<Region>)
        requires
            self.wf(),
            index < SLOT_COUNT,
        ensures
            r == self@[index as int],
    {
        self.slots[index]
    }

    /// Writes one slot of the protection unit.
    pub fn program_slot(&mut self, index: usize, region: Option<Region>)
        requires
            old(self).wf(),
            index < SLOT_COUNT,
        ensures
            final(self).wf(),
            final(self)@ == old(self)@.update(index as int, region),
    {
        self.slots.set(index, region);
    }

    /// Whether the programmed layout permits an access of the given kind
    /// at the given address. Mirrors the hardware decision: the access
    /// reaches memory if and only if this returns true.
    pub fn check_access(&self, addr: u32, kind: AccessKind) -> (r: bool)
        requires
            self.wf(),
        ensures
            r == allows_access(self@, addr as int, kind),
    {
        let mut i: usize = self.slots.len();
        proof {
            assert(self@.take(i as int) =~= self@);
        }
        while i > 0
            invariant
                self.wf(),
                i <= SLOT_COUNT,
                allows_access(self@, addr as int, kind) == allows_access(
                    self@.take(i as int),
                    addr as int,
                    kind,
                ),
            decreases i,
        {
            i = i - 1;
            proof {
                assert(self@.take(i + 1).drop_last() =~= self@.take(i as int));
                assert(self@.take(i + 1).last() == self@[i as int]);
            }
            match self.slots[i] {
                Some(region) => {
                    let sz = region.size.bytes();
                    if region.base <= addr && (addr as u64) < (region.base as u64) + (sz as u64) {
                        return match kind {
                            AccessKind::Read => region.attributes.readable,
                            AccessKind::Write => region.attributes.writable,
                            AccessKind::Execute => region.attributes.executable,
                        };
                    }
                },
                None => {},
            }
        }
        proof {
            assert(self@.take(0) =~= Seq::<Option<Region>>::empty());
        }
        false
    }
}

/// An address covered by a programmed slot above slot 0 is blocked for
/// every access kind, provided every programmed slot above slot 0 carries
/// all-blocking attributes: a higher quarantine slot always overrides the
/// default region.
pub proof fn lemma_covered_above_slot0_blocks(
    slots: Seq<Option<Region>>,
    addr: int,
    kind: AccessKind,
)
    requires
        forall|j: int|
            1 <= j < slots.len() && slots[j] is Some ==> !(#[trigger] slots[j])->Some_0.attributes.allows(kind),
        exists|j: int| 1 <= j < slots.len() && slot_covers(#[trigger] slots[j], addr),
    ensures
        !allows_access(slots, addr, kind),
    decreases slots.len(),
{
    let j = choose|j: int| 1 <= j < slots.len() && slot_covers(#[trigger] slots[j], addr);
    if slot_covers(slots.last(), addr) {
        if slots.len() - 1 >= 1 {
            // the deciding slot is above slot 0 and blocks every kind
        } else {
            // slots.len() == 1, contradicting the witness 1 <= j
            assert(false);
        }
    } else {
        // the witness slot is strictly below the last index
        assert(j < slots.len() - 1);
        assert(slot_covers(slots.drop_last()[j], addr));
        lemma_covered_above_slot0_blocks(slots.drop_last(), addr, kind);
    }
}

} // verus!
