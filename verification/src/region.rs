use vstd::prelude::*;

verus! {

/// The kind of a memory access, as distinguished by the protection unit.
#[derive(Clone, Copy, Debug, PartialEq, Eq, Structural)]
pub enum AccessKind {
    Read,
    Write,
    Execute,
}

/// Access attributes of a protection region.
#[derive(Clone, Copy, Debug, PartialEq, Eq, Structural)]
pub struct RegionAttributes {
    pub readable: bool,
    pub writable: bool,
    pub executable: bool,
    pub cacheable: bool,
    pub shareable: bool,
}

impl RegionAttributes {
    /// Whether these attributes permit an access of the given kind.
    pub open spec fn allows(self, kind: AccessKind) -> bool {
        match kind {
            AccessKind::Read => self.readable,
            AccessKind::Write => self.writable,
            AccessKind::Execute => self.executable,
        }
    }

    /// Attributes that block every access: the quarantine setting.
    pub open spec fn spec_no_access() -> RegionAttributes {
        RegionAttributes {
            readable: false,
            writable: false,
            executable: false,
            cacheable: false,
            shareable: false,
        }
    }

    /// Attributes of the default whole-RAM region: readable and writable,
    /// execute-prevented, normal cacheable shareable memory.
    pub open spec fn spec_default_ram() -> RegionAttributes {
        RegionAttributes {
            readable: true,
            writable: true,
            executable: false,
            cacheable: true,
            shareable: true,
        }
    }

    pub fn no_access() -> (r: RegionAttributes)
        ensures
            r == RegionAttributes::spec_no_access(),
    {
        RegionAttributes {
            readable: false,
            writable: false,
            executable: false,
            cacheable: false,
            shareable: false,
        }
    }

    pub fn default_ram() -> (r: RegionAttributes)
        ensures
            r == RegionAttributes::spec_default_ram(),
    {
        RegionAttributes {
            readable: true,
            writable: true,
            executable: false,
            cacheable: true,
            shareable: true,
        }
    }
}

/// The fixed set of region sizes the protection hardware supports:
/// powers of two from 32 bytes up to 1 MiB.
#[derive(Clone, Copy, Debug, PartialEq, Eq, Structural)]
pub enum RegionSize {
    S32,
    S64,
    S128,
    S256,
    S512,
    S1K,
    S2K,
    S4K,
    S8K,
    S16K,
    S32K,
    S64K,
    S128K,
    S256K,
    S512K,
    S1M,
}

impl RegionSize {
    /// The size class measured in bytes.
    pub open spec fn spec_bytes(self) -> nat {
        match self {
            RegionSize::S32 => 32,
            RegionSize::S64 => 64,
            RegionSize::S128 => 128,
            RegionSize::S256 => 256,
            RegionSize::S512 => 512,
            RegionSize::S1K => 1024,
            RegionSize::S2K => 2048,
            RegionSize::S4K => 4096,
            RegionSize::S8K => 8192,
            RegionSize::S16K => 16384,
            RegionSize::S32K => 32768,
            RegionSize::S64K => 65536,
            RegionSize::S128K => 131072,
            RegionSize::S256K => 262144,
            RegionSize::S512K => 524288,
            RegionSize::S1M => 1048576,
        }
    }

    pub fn bytes(&self) -> (r: u32)
        ensures
            r == self.spec_bytes(),
    {
        match self {
            RegionSize::S32 => 32,
            RegionSize::S64 => 64,
            RegionSize::S128 => 128,
            RegionSize::S256 => 256,
            RegionSize::S512 => 512,
            RegionSize::S1K => 1024,
            RegionSize::S2K => 2048,
            RegionSize::S4K => 4096,
            RegionSize::S8K => 8192,
            RegionSize::S16K => 16384,
            RegionSize::S32K => 32768,
            RegionSize::S64K => 65536,
            RegionSize::S128K => 131072,
            RegionSize::S256K => 262144,
            RegionSize::S512K => 524288,
            RegionSize::S1M => 1048576,
        }
    }

    /// The size class whose byte count is exactly `n`, if one exists.
    pub open spec fn spec_from_bytes(n: nat) -> Option<RegionSize> {
        if n == 32 {
            Some(RegionSize::S32)
        } else if n == 64 {
            Some(RegionSize::S64)
        } else if n == 128 {
            Some(RegionSize::S128)
        } else if n == 256 {
            Some(RegionSize::S256)
        } else if n == 512 {
            Some(RegionSize::S512)
        } else if n == 1024 {
            Some(RegionSize::S1K)
        } else if n == 2048 {
            Some(RegionSize::S2K)
        } else if n == 4096 {
            Some(RegionSize::S4K)
        } else if n == 8192 {
            Some(RegionSize::S8K)
        } else if n == 16384 {
            Some(RegionSize::S16K)
        } else if n == 32768 {
            Some(RegionSize::S32K)
        } else if n == 65536 {
            Some(RegionSize::S64K)
        } else if n == 131072 {
            Some(RegionSize::S128K)
        } else if n == 262144 {
            Some(RegionSize::S256K)
        } else if n == 524288 {
            Some(RegionSize::S512K)
        } else if n == 1048576 {
            Some(RegionSize::S1M)
        } else {
            None
        }
    }

    /// Whether `n` bytes is a size the protection hardware supports.
    pub open spec fn spec_supported(n: nat) -> bool {
        RegionSize::spec_from_bytes(n) is Some
    }

    pub fn from_bytes(n: u32) -> (r: Option<RegionSize>)
        ensures
            r == RegionSize::spec_from_bytes(n as nat),
    {
        match n {
            32 => Some(RegionSize::S32),
            64 => Some(RegionSize::S64),
            128 => Some(RegionSize::S128),
            256 => Some(RegionSize::S256),
            512 => Some(RegionSize::S512),
            1024 => Some(RegionSize::S1K),
            2048 => Some(RegionSize::S2K),
            4096 => Some(RegionSize::S4K),
            8192 => Some(RegionSize::S8K),
            16384 => Some(RegionSize::S16K),
            32768 => Some(RegionSize::S32K),
            65536 => Some(RegionSize::S64K),
            131072 => Some(RegionSize::S128K),
            262144 => Some(RegionSize::S256K),
            524288 => Some(RegionSize::S512K),
            1048576 => Some(RegionSize::S1M),
            _ => None,
        }
    }
}

/// One protection-region descriptor: a base address, a supported
/// power-of-two size class, and access attributes.
#[derive(Clone, Copy, Debug, PartialEq, Eq, Structural)]
pub struct Region {
    pub base: u32,
    pub size: RegionSize,
    pub attributes: RegionAttributes,
}

impl Region {
    /// Well-formedness: the base is aligned to the region size, and the
    /// region fits inside the 32-bit address space.
    pub open spec fn wf(self) -> bool {
        &&& self.base as int % self.size.spec_bytes() as int == 0
        &&& self.base + self.size.spec_bytes() <= 0x1_0000_0000
    }

    /// Whether the address lies inside this region.
    pub open spec fn contains(self, addr: int) -> bool {
        self.base <= addr < self.base + self.size.spec_bytes()
    }

    pub fn new(base: u32, size: RegionSize, attributes: RegionAttributes) -> (r: Region)
        ensures
            r == (Region { base, size, attributes }),
    {
        Region { base, size, attributes }
    }
}

} // verus!
