//! The machines an a.out image can be converted for.
use vstd::prelude::*;

verus! {

/// Magic number of an a.out image for amd64, read as a little-endian word.
pub const AOUT_MAGIC_AMD64: u32 = 0x978a_0000;

/// Magic number of an a.out image for 64-bit RISC-V, read as a little-endian word.
pub const AOUT_MAGIC_RISCV64: u32 = 0x178e_0000;

/// Base added to every loaded address of an amd64 image.
pub const VIRTUAL_BASE_AMD64: u64 = 0x8000_0000;

/// Base added to every loaded address of a RISC-V image.
pub const VIRTUAL_BASE_RISCV64: u64 = 0x0000_0000;

/// The architecture an image is for. It fixes the ELF class, and with it the
/// size of every ELF structure, the machine code of the file header and the
/// virtual base of the loaded segments.
#[derive(Clone, Copy, Debug, PartialEq, Eq, Structural)]
pub enum MachineTarget {
    Amd64,
    RiscV64,
}

/// The architecture that an a.out magic number selects, if any.
pub open spec fn target_of_magic(magic: u32) -> Option<MachineTarget> {
    if magic == AOUT_MAGIC_AMD64 {
        Some(MachineTarget::Amd64)
    } else if magic == AOUT_MAGIC_RISCV64 {
        Some(MachineTarget::RiscV64)
    } else {
        None
    }
}

/// Whether images for `machine` use the 64-bit ELF class.
pub open spec fn spec_is_64bit(machine: MachineTarget) -> bool {
    machine == MachineTarget::RiscV64
}

/// Whether images for `machine` use the 64-bit ELF class.
pub fn is_64bit(machine: MachineTarget) -> (r: bool)
    ensures
        r == spec_is_64bit(machine),
{
    match machine {
        MachineTarget::Amd64 => false,
        MachineTarget::RiscV64 => true,
    }
}

impl MachineTarget {
    /// The value of the ELF header's machine field.
    pub open spec fn spec_machine_code(self) -> u16 {
        match self {
            MachineTarget::Amd64 => 0x3e,
            MachineTarget::RiscV64 => 0xf3,
        }
    }

    /// The value of the ELF header's machine field.
    pub fn machine_code(self) -> (r: u16)
        ensures
            r == self.spec_machine_code(),
    {
        match self {
            MachineTarget::Amd64 => 0x3e,
            MachineTarget::RiscV64 => 0xf3,
        }
    }

    /// The base added to the addresses at which the segments are loaded.
    pub open spec fn spec_virtual_base(self) -> u64 {
        match self {
            MachineTarget::Amd64 => VIRTUAL_BASE_AMD64,
            MachineTarget::RiscV64 => VIRTUAL_BASE_RISCV64,
        }
    }

    /// The base added to the addresses at which the segments are loaded.
    pub fn virtual_base(self) -> (r: u64)
        ensures
            r == self.spec_virtual_base(),
    {
        match self {
            MachineTarget::Amd64 => VIRTUAL_BASE_AMD64,
            MachineTarget::RiscV64 => VIRTUAL_BASE_RISCV64,
        }
    }
}

} // verus!
