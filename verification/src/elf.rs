//! The ELF structures that an image is made of, and their byte encodings.
//!
//! Each structure comes in a 32-bit and a 64-bit shape behind one enum. The
//! spec function `bytes` of a structure is its encoding as the ELF ABI lays it
//! out, little-endian and without padding; `as_bytes` computes it.
use vstd::prelude::*;
use crate::target::{is_64bit, spec_is_64bit, MachineTarget};
use crate::wire::{le_bytes_u16, le_bytes_u32, le_bytes_u64, put_le_u16, put_le_u32, put_le_u64};

verus! {

/// The four bytes every ELF file starts with.
pub const ELF_MAGIC: [u8; 4] = [0x7f, 0x45, 0x4c, 0x46];

pub const ELF32_HEADER_SIZE: usize = 52;

pub const ELF64_HEADER_SIZE: usize = 64;

pub const ELF32_PROGRAM_HEADER_SIZE: usize = 32;

pub const ELF64_PROGRAM_HEADER_SIZE: usize = 56;

pub const ELF32_SECTION_HEADER_SIZE: usize = 40;

pub const ELF64_SECTION_HEADER_SIZE: usize = 64;

pub const ELF32_SYMBOL_TABLE_ENTRY_SIZE: usize = 16;

pub const ELF64_SYMBOL_TABLE_ENTRY_SIZE: usize = 24;

/// Index of the section that holds the symbol names.
pub const SYM_STRING_TABLE_INDEX: u32 = 4;

/// Index of the section that holds the section names.
pub const SH_STRING_TABLE_INDEX: u32 = 5;

/// Object file type.
#[derive(Clone, Copy, Debug, PartialEq, Eq, Structural)]
pub enum ElfType {
    NoFileType,
    Relocatable,
    Executable,
    SharedObject,
    Core,
}

impl ElfType {
    pub open spec fn spec_code(self) -> u16 {
        match self {
            ElfType::NoFileType => 0,
            ElfType::Relocatable => 1,
            ElfType::Executable => 2,
            ElfType::SharedObject => 3,
            ElfType::Core => 4,
        }
    }

    pub fn code(self) -> (r: u16)
        ensures
            r == self.spec_code(),
    {
        match self {
            ElfType::NoFileType => 0,
            ElfType::Relocatable => 1,
            ElfType::Executable => 2,
            ElfType::SharedObject => 3,
            ElfType::Core => 4,
        }
    }
}

/// Word width of the file's structures.
#[derive(Clone, Copy, Debug, PartialEq, Eq, Structural)]
pub enum ElfClass {
    Invalid,
    Elf32,
    Elf64,
}

impl ElfClass {
    pub open spec fn spec_code(self) -> u8 {
        match self {
            ElfClass::Invalid => 0,
            ElfClass::Elf32 => 1,
            ElfClass::Elf64 => 2,
        }
    }

    pub fn code(self) -> (r: u8)
        ensures
            r == self.spec_code(),
    {
        match self {
            ElfClass::Invalid => 0,
            ElfClass::Elf32 => 1,
            ElfClass::Elf64 => 2,
        }
    }
}

/// Byte order of the file's structures.
#[derive(Clone, Copy, Debug, PartialEq, Eq, Structural)]
pub enum ElfDataEncoding {
    Invalid,
    LittleEndian,
    BigEndian,
}

impl ElfDataEncoding {
    pub open spec fn spec_code(self) -> u8 {
        match self {
            ElfDataEncoding::Invalid => 0,
            ElfDataEncoding::LittleEndian => 1,
            ElfDataEncoding::BigEndian => 2,
        }
    }

    pub fn code(self) -> (r: u8)
        ensures
            r == self.spec_code(),
    {
        match self {
            ElfDataEncoding::Invalid => 0,
            ElfDataEncoding::LittleEndian => 1,
            ElfDataEncoding::BigEndian => 2,
        }
    }
}

/// Operating system or ABI the file is for.
#[derive(Clone, Copy, Debug, PartialEq, Eq, Structural)]
pub enum ElfOsAbi {
    SystemV,
    HpUx,
    NetBsd,
    Linux,
}

impl ElfOsAbi {
    pub open spec fn spec_code(self) -> u8 {
        match self {
            ElfOsAbi::SystemV => 0,
            ElfOsAbi::HpUx => 1,
            ElfOsAbi::NetBsd => 2,
            ElfOsAbi::Linux => 3,
        }
    }

    pub fn code(self) -> (r: u8)
        ensures
            r == self.spec_code(),
    {
        match self {
            ElfOsAbi::SystemV => 0,
            ElfOsAbi::HpUx => 1,
            ElfOsAbi::NetBsd => 2,
            ElfOsAbi::Linux => 3,
        }
    }
}

/// Kind of a program header's segment.
#[derive(Clone, Copy, Debug, PartialEq, Eq, Structural)]
pub enum ElfProgramType {
    Null,
    Load,
    Dynamic,
    Interpreted,
    Note,
}

impl ElfProgramType {
    pub open spec fn spec_code(self) -> u32 {
        match self {
            ElfProgramType::Null => 0,
            ElfProgramType::Load => 1,
            ElfProgramType::Dynamic => 2,
            ElfProgramType::Interpreted => 3,
            ElfProgramType::Note => 4,
        }
    }

    pub fn code(self) -> (r: u32)
        ensures
            r == self.spec_code(),
    {
        match self {
            ElfProgramType::Null => 0,
            ElfProgramType::Load => 1,
            ElfProgramType::Dynamic => 2,
            ElfProgramType::Interpreted => 3,
            ElfProgramType::Note => 4,
        }
    }
}

/// Kind of a section.
#[derive(Clone, Copy, Debug, PartialEq, Eq, Structural)]
pub enum ElfSectionType {
    Null,
    ProgBits,
    SymbolTable,
    SymbolStringTable,
    RelocationEntriesWithAddends,
    SymbolHashTable,
    Dynamic,
    Note,
    NoBits,
}

impl ElfSectionType {
    pub open spec fn spec_code(self) -> u32 {
        match self {
            ElfSectionType::Null => 0,
            ElfSectionType::ProgBits => 1,
            ElfSectionType::SymbolTable => 2,
            ElfSectionType::SymbolStringTable => 3,
            ElfSectionType::RelocationEntriesWithAddends => 4,
            ElfSectionType::SymbolHashTable => 5,
            ElfSectionType::Dynamic => 6,
            ElfSectionType::Note => 7,
            ElfSectionType::NoBits => 8,
        }
    }

    pub fn code(self) -> (r: u32)
        ensures
            r == self.spec_code(),
    {
        match self {
            ElfSectionType::Null => 0,
            ElfSectionType::ProgBits => 1,
            ElfSectionType::SymbolTable => 2,
            ElfSectionType::SymbolStringTable => 3,
            ElfSectionType::RelocationEntriesWithAddends => 4,
            ElfSectionType::SymbolHashTable => 5,
            ElfSectionType::Dynamic => 6,
            ElfSectionType::Note => 7,
            ElfSectionType::NoBits => 8,
        }
    }
}

/// The sixteen identification bytes at the start of the file header.
#[derive(Clone, Copy, Debug)]
pub struct ElfId {
    pub magic: [u8; 4],
    pub class: ElfClass,
    pub data_encoding: ElfDataEncoding,
    pub header_version: u8,
    pub os_abi: ElfOsAbi,
    pub abi_version: u8,
}

impl ElfId {
    /// The encoding: magic, class, data encoding, header version, OS/ABI,
    /// ABI version, then seven reserved zero bytes.
    pub open spec fn bytes(self) -> Seq<u8> {
        self.magic@ + seq![
            self.class.spec_code(),
            self.data_encoding.spec_code(),
            self.header_version,
            self.os_abi.spec_code(),
            self.abi_version,
            0u8,
            0u8,
            0u8,
            0u8,
            0u8,
            0u8,
            0u8,
        ]
    }

    /// The identification of a little-endian file of the given class, for no
    /// particular OS or ABI.
    pub open spec fn spec_new(class: ElfClass) -> ElfId {
        ElfId {
            magic: ELF_MAGIC,
            class,
            data_encoding: ElfDataEncoding::LittleEndian,
            header_version: 1,
            os_abi: ElfOsAbi::SystemV,
            abi_version: 0,
        }
    }

    /// The identification of a little-endian file of the given class, for no
    /// particular OS or ABI.
    pub fn new(class: ElfClass) -> (r: ElfId)
        ensures
            r == ElfId::spec_new(class),
    {
        ElfId {
            magic: ELF_MAGIC,
            class,
            data_encoding: ElfDataEncoding::LittleEndian,
            header_version: 1,
            os_abi: ElfOsAbi::SystemV,
            abi_version: 0,
        }
    }

    /// The sixteen bytes of the identification.
    pub fn as_bytes(&self) -> (r: Vec<u8>)
        ensures
            r@ == self.bytes(),
            r@.len() == 16,
    {
        let mut out: Vec<u8> = Vec::new();
        out.push(self.magic[0]);
        out.push(self.magic[1]);
        out.push(self.magic[2]);
        out.push(self.magic[3]);
        out.push(self.class.code());
        out.push(self.data_encoding.code());
        out.push(self.header_version);
        out.push(self.os_abi.code());
        out.push(self.abi_version);
        let mut i: usize = 0;
        while i < 7
            invariant
                i <= 7,
                out@.len() == 9 + i,
                out@.subrange(0, 4) == self.magic@,
                out@[4] == self.class.spec_code(),
                out@[5] == self.data_encoding.spec_code(),
                out@[6] == self.header_version,
                out@[7] == self.os_abi.spec_code(),
                out@[8] == self.abi_version,
                forall|j: int| 9 <= j < 9 + i ==> out@[j] == 0u8,
            decreases 7 - i,
        {
            out.push(0);
            i = i + 1;
        }
        assert(out@ =~= self.bytes());
        out
    }
}

/// The tail of the file header that both classes share.
#[derive(Clone, Copy, Debug)]
pub struct ElfExtra {
    pub flags: u32,
    pub elf_header_size: u16,
    pub program_header_entry_size: u16,
    pub program_header_entry_count: u16,
    pub section_header_entry_size: u16,
    pub section_header_entry_count: u16,
    pub section_header_index_entry: u16,
}

impl ElfExtra {
    pub open spec fn bytes(self) -> Seq<u8> {
        le_bytes_u32(self.flags) + le_bytes_u16(self.elf_header_size) + le_bytes_u16(
            self.program_header_entry_size,
        ) + le_bytes_u16(self.program_header_entry_count) + le_bytes_u16(
            self.section_header_entry_size,
        ) + le_bytes_u16(self.section_header_entry_count) + le_bytes_u16(
            self.section_header_index_entry,
        )
    }

    fn put(&self, out: &mut Vec<u8>)
        ensures
            final(out)@ == old(out)@ + self.bytes(),
    {
        put_le_u32(out, self.flags);
        put_le_u16(out, self.elf_header_size);
        put_le_u16(out, self.program_header_entry_size);
        put_le_u16(out, self.program_header_entry_count);
        put_le_u16(out, self.section_header_entry_size);
        put_le_u16(out, self.section_header_entry_count);
        put_le_u16(out, self.section_header_index_entry);
        assert(out@ =~= old(out)@ + self.bytes());
    }
}

/// File header of the 32-bit class.
#[derive(Clone, Copy, Debug)]
pub struct Elf32Header {
    pub id: ElfId,
    pub elf_type: ElfType,
    pub machine: MachineTarget,
    pub version: u32,
    pub entry: u32,
    pub program_header_offset: u32,
    pub section_header_offset: u32,
    pub extra: ElfExtra,
}

/// File header of the 64-bit class.
#[derive(Clone, Copy, Debug)]
pub struct Elf64Header {
    pub id: ElfId,
    pub elf_type: ElfType,
    pub machine: MachineTarget,
    pub version: u32,
    pub entry: u64,
    pub program_header_offset: u64,
    pub section_header_offset: u64,
    pub extra: ElfExtra,
}

impl Elf32Header {
    pub open spec fn bytes(self) -> Seq<u8> {
        self.id.bytes() + le_bytes_u16(self.elf_type.spec_code()) + le_bytes_u16(
            self.machine.spec_machine_code(),
        ) + le_bytes_u32(self.version) + le_bytes_u32(self.entry) + le_bytes_u32(
            self.program_header_offset,
        ) + le_bytes_u32(self.section_header_offset) + self.extra.bytes()
    }
}

impl Elf64Header {
    pub open spec fn bytes(self) -> Seq<u8> {
        self.id.bytes() + le_bytes_u16(self.elf_type.spec_code()) + le_bytes_u16(
            self.machine.spec_machine_code(),
        ) + le_bytes_u32(self.version) + le_bytes_u64(self.entry) + le_bytes_u64(
            self.program_header_offset,
        ) + le_bytes_u64(self.section_header_offset) + self.extra.bytes()
    }
}

/// The file header, in the shape of its class.
#[derive(Clone, Copy, Debug)]
pub enum ElfHeader {
    Elf32(Elf32Header),
    Elf64(Elf64Header),
}

/// Size of the file header of the class that `machine` uses.
pub open spec fn header_size(machine: MachineTarget) -> int {
    if spec_is_64bit(machine) {
        ELF64_HEADER_SIZE as int
    } else {
        ELF32_HEADER_SIZE as int
    }
}

/// Size of one program header of the class that `machine` uses.
pub open spec fn program_header_size(machine: MachineTarget) -> int {
    if spec_is_64bit(machine) {
        ELF64_PROGRAM_HEADER_SIZE as int
    } else {
        ELF32_PROGRAM_HEADER_SIZE as int
    }
}

/// Size of one section header of the class that `machine` uses.
pub open spec fn section_header_size(machine: MachineTarget) -> int {
    if spec_is_64bit(machine) {
        ELF64_SECTION_HEADER_SIZE as int
    } else {
        ELF32_SECTION_HEADER_SIZE as int
    }
}

/// Size of one symbol table entry of the class that `machine` uses.
pub open spec fn symbol_entry_size(machine: MachineTarget) -> int {
    if spec_is_64bit(machine) {
        ELF64_SYMBOL_TABLE_ENTRY_SIZE as int
    } else {
        ELF32_SYMBOL_TABLE_ENTRY_SIZE as int
    }
}

impl ElfHeader {
    /// The header of an executable for `machine` whose program headers follow
    /// the file header directly and whose section headers follow those.
    pub open spec fn spec_new(
        program_header_entry_count: int,
        section_header_entry_count: int,
        entry: u32,
        machine: MachineTarget,
    ) -> ElfHeader {
        let extra = ElfExtra {
            flags: 0,
            elf_header_size: header_size(machine) as u16,
            program_header_entry_size: program_header_size(machine) as u16,
            program_header_entry_count: program_header_entry_count as u16,
            section_header_entry_size: section_header_size(machine) as u16,
            section_header_entry_count: section_header_entry_count as u16,
            section_header_index_entry: SH_STRING_TABLE_INDEX as u16,
        };
        let ph_offset = header_size(machine);
        let sh_offset = ph_offset + program_header_entry_count * program_header_size(machine);
        match machine {
            MachineTarget::Amd64 => ElfHeader::Elf32(
                Elf32Header {
                    id: ElfId::spec_new(ElfClass::Elf32),
                    elf_type: ElfType::Executable,
                    machine,
                    version: 1,
                    entry,
                    program_header_offset: ph_offset as u32,
                    section_header_offset: sh_offset as u32,
                    extra,
                },
            ),
            MachineTarget::RiscV64 => ElfHeader::Elf64(
                Elf64Header {
                    id: ElfId::spec_new(ElfClass::Elf64),
                    elf_type: ElfType::Executable,
                    machine,
                    version: 1,
                    entry: entry as u64,
                    program_header_offset: ph_offset as u64,
                    section_header_offset: sh_offset as u64,
                    extra,
                },
            ),
        }
    }

    /// The header of an executable for `machine` with the given numbers of
    /// program and section headers and the given entry point. Both counts
    /// must fit the header's 16-bit fields.
    pub fn new(
        program_header_entry_count: usize,
        section_header_entry_count: usize,
        entry: u32,
        machine: MachineTarget,
    ) -> (r: ElfHeader)
        requires
            program_header_entry_count <= u16::MAX,
            section_header_entry_count <= u16::MAX,
        ensures
            r == ElfHeader::spec_new(
                program_header_entry_count as int,
                section_header_entry_count as int,
                entry,
                machine,
            ),
    {
        let wide = is_64bit(machine);
        let elf_header_size: u16 = if wide {
            64
        } else {
            52
        };
        let elf_program_header_size: u16 = if wide {
            56
        } else {
            32
        };
        let elf_section_header_size: u16 = if wide {
            64
        } else {
            40
        };
        let extra = ElfExtra {
            flags: 0,
            elf_header_size,
            program_header_entry_size: elf_program_header_size,
            program_header_entry_count: program_header_entry_count as u16,
            section_header_entry_size: elf_section_header_size,
            section_header_entry_count: section_header_entry_count as u16,
            section_header_index_entry: 5,
        };
        assert(program_header_entry_count * elf_program_header_size <= 65535 * 56)
            by (nonlinear_arith)
            requires
                program_header_entry_count <= 65535,
                elf_program_header_size <= 56,
        ;
        let ph_size: u32 = (program_header_entry_count as u32) * (elf_program_header_size as u32);
        let ph_offset: u32 = elf_header_size as u32;
        let sh_offset: u32 = ph_offset + ph_size;
        match machine {
            MachineTarget::Amd64 => ElfHeader::Elf32(
                Elf32Header {
                    id: ElfId::new(ElfClass::Elf32),
                    elf_type: ElfType::Executable,
                    machine,
                    version: 1,
                    entry,
                    program_header_offset: ph_offset,
                    section_header_offset: sh_offset,
                    extra,
                },
            ),
            MachineTarget::RiscV64 => ElfHeader::Elf64(
                Elf64Header {
                    id: ElfId::new(ElfClass::Elf64),
                    elf_type: ElfType::Executable,
                    machine,
                    version: 1,
                    entry: entry as u64,
                    program_header_offset: ph_offset as u64,
                    section_header_offset: sh_offset as u64,
                    extra,
                },
            ),
        }
    }

    /// The encoding of the header.
    pub open spec fn bytes(self) -> Seq<u8> {
        match self {
            ElfHeader::Elf32(h) => h.bytes(),
            ElfHeader::Elf64(h) => h.bytes(),
        }
    }

    /// The bytes of the header as they stand in the file.
    pub fn as_bytes(&self) -> (r: Vec<u8>)
        ensures
            r@ == self.bytes(),
    {
        match self {
            ElfHeader::Elf32(h) => {
                let mut out = h.id.as_bytes();
                put_le_u16(&mut out, h.elf_type.code());
                put_le_u16(&mut out, h.machine.machine_code());
                put_le_u32(&mut out, h.version);
                put_le_u32(&mut out, h.entry);
                put_le_u32(&mut out, h.program_header_offset);
                put_le_u32(&mut out, h.section_header_offset);
                h.extra.put(&mut out);
                out
            },
            ElfHeader::Elf64(h) => {
                let mut out = h.id.as_bytes();
                put_le_u16(&mut out, h.elf_type.code());
                put_le_u16(&mut out, h.machine.machine_code());
                put_le_u32(&mut out, h.version);
                put_le_u64(&mut out, h.entry);
                put_le_u64(&mut out, h.program_header_offset);
                put_le_u64(&mut out, h.section_header_offset);
                h.extra.put(&mut out);
                out
            },
        }
    }
}

/// Program header of the 32-bit class.
#[derive(Clone, Copy, Debug)]
pub struct Elf32ProgramHeader {
    pub program_type: ElfProgramType,
    pub offset: u32,
    pub virtual_addr: u32,
    pub physical_addr: u32,
    pub file_size: u32,
    pub memory_size: u32,
    pub flags: u32,
    pub align: u32,
}

/// Program header of the 64-bit class.
#[derive(Clone, Copy, Debug)]
pub struct Elf64ProgramHeader {
    pub program_type: ElfProgramType,
    pub flags: u32,
    pub offset: u64,
    pub virtual_addr: u64,
    pub physical_addr: u64,
    pub file_size: u64,
    pub memory_size: u64,
    pub align: u64,
}

impl Elf32ProgramHeader {
    pub open spec fn bytes(self) -> Seq<u8> {
        le_bytes_u32(self.program_type.spec_code()) + le_bytes_u32(self.offset) + le_bytes_u32(
            self.virtual_addr,
        ) + le_bytes_u32(self.physical_addr) + le_bytes_u32(self.file_size) + le_bytes_u32(
            self.memory_size,
        ) + le_bytes_u32(self.flags) + le_bytes_u32(self.align)
    }
}

impl Elf64ProgramHeader {
    pub open spec fn bytes(self) -> Seq<u8> {
        le_bytes_u32(self.program_type.spec_code()) + le_bytes_u32(self.flags) + le_bytes_u64(
            self.offset,
        ) + le_bytes_u64(self.virtual_addr) + le_bytes_u64(self.physical_addr) + le_bytes_u64(
            self.file_size,
        ) + le_bytes_u64(self.memory_size) + le_bytes_u64(self.align)
    }
}

/// A program header, in the shape of its class.
#[derive(Clone, Copy, Debug)]
pub enum ElfProgramHeader {
    Elf32(Elf32ProgramHeader),
    Elf64(Elf64ProgramHeader),
}

impl ElfProgramHeader {
    /// Whether the header has the shape of the 64-bit class.
    pub open spec fn is_wide(self) -> bool {
        self is Elf64
    }

    /// Where the segment starts in the file.
    pub open spec fn offset(self) -> int {
        match self {
            ElfProgramHeader::Elf32(h) => h.offset as int,
            ElfProgramHeader::Elf64(h) => h.offset as int,
        }
    }

    /// How many bytes of the file belong to the segment.
    pub open spec fn file_size(self) -> int {
        match self {
            ElfProgramHeader::Elf32(h) => h.file_size as int,
            ElfProgramHeader::Elf64(h) => h.file_size as int,
        }
    }

    /// The encoding of the header.
    pub open spec fn bytes(self) -> Seq<u8> {
        match self {
            ElfProgramHeader::Elf32(h) => h.bytes(),
            ElfProgramHeader::Elf64(h) => h.bytes(),
        }
    }

    /// The bytes of the header as they stand in the file.
    pub fn as_bytes(&self) -> (r: Vec<u8>)
        ensures
            r@ == self.bytes(),
    {
        let mut out: Vec<u8> = Vec::new();
        match self {
            ElfProgramHeader::Elf32(h) => {
                put_le_u32(&mut out, h.program_type.code());
                put_le_u32(&mut out, h.offset);
                put_le_u32(&mut out, h.virtual_addr);
                put_le_u32(&mut out, h.physical_addr);
                put_le_u32(&mut out, h.file_size);
                put_le_u32(&mut out, h.memory_size);
                put_le_u32(&mut out, h.flags);
                put_le_u32(&mut out, h.align);
            },
            ElfProgramHeader::Elf64(h) => {
                put_le_u32(&mut out, h.program_type.code());
                put_le_u32(&mut out, h.flags);
                put_le_u64(&mut out, h.offset);
                put_le_u64(&mut out, h.virtual_addr);
                put_le_u64(&mut out, h.physical_addr);
                put_le_u64(&mut out, h.file_size);
                put_le_u64(&mut out, h.memory_size);
                put_le_u64(&mut out, h.align);
            },
        }
        assert(out@ =~= self.bytes());
        out
    }
}

/// Section header of the 32-bit class.
#[derive(Clone, Copy, Debug)]
pub struct Elf32SectionHeader {
    pub name: u32,
    pub section_type: ElfSectionType,
    pub flags: u32,
    pub addr: u32,
    pub offset: u32,
    pub size: u32,
    pub link: u32,
    pub info: u32,
    pub addr_align: u32,
    pub entry_size: u32,
}

/// Section header of the 64-bit class.
#[derive(Clone, Copy, Debug)]
pub struct Elf64SectionHeader {
    pub name: u32,
    pub section_type: ElfSectionType,
    pub flags: u64,
    pub addr: u64,
    pub offset: u64,
    pub size: u64,
    pub link: u32,
    pub info: u32,
    pub addr_align: u64,
    pub entry_size: u64,
}

impl Elf32SectionHeader {
    pub open spec fn bytes(self) -> Seq<u8> {
        le_bytes_u32(self.name) + le_bytes_u32(self.section_type.spec_code()) + le_bytes_u32(
            self.flags,
        ) + le_bytes_u32(self.addr) + le_bytes_u32(self.offset) + le_bytes_u32(self.size)
            + le_bytes_u32(self.link) + le_bytes_u32(self.info) + le_bytes_u32(self.addr_align)
            + le_bytes_u32(self.entry_size)
    }
}

impl Elf64SectionHeader {
    pub open spec fn bytes(self) -> Seq<u8> {
        le_bytes_u32(self.name) + le_bytes_u32(self.section_type.spec_code()) + le_bytes_u64(
            self.flags,
        ) + le_bytes_u64(self.addr) + le_bytes_u64(self.offset) + le_bytes_u64(self.size)
            + le_bytes_u32(self.link) + le_bytes_u32(self.info) + le_bytes_u64(self.addr_align)
            + le_bytes_u64(self.entry_size)
    }
}

/// A section header, in the shape of its class.
#[derive(Clone, Copy, Debug)]
pub enum ElfSectionHeader {
    Elf32(Elf32SectionHeader),
    Elf64(Elf64SectionHeader),
}

impl ElfSectionHeader {
    /// Whether the header has the shape of the 64-bit class.
    pub open spec fn is_wide(self) -> bool {
        self is Elf64
    }

    /// Where the section starts in the file.
    pub open spec fn offset(self) -> int {
        match self {
            ElfSectionHeader::Elf32(h) => h.offset as int,
            ElfSectionHeader::Elf64(h) => h.offset as int,
        }
    }

    /// How many bytes of the file belong to the section.
    pub open spec fn size(self) -> int {
        match self {
            ElfSectionHeader::Elf32(h) => h.size as int,
            ElfSectionHeader::Elf64(h) => h.size as int,
        }
    }

    /// The encoding of the header.
    pub open spec fn bytes(self) -> Seq<u8> {
        match self {
            ElfSectionHeader::Elf32(h) => h.bytes(),
            ElfSectionHeader::Elf64(h) => h.bytes(),
        }
    }

    /// The bytes of the header as they stand in the file.
    pub fn as_bytes(&self) -> (r: Vec<u8>)
        ensures
            r@ == self.bytes(),
    {
        let mut out: Vec<u8> = Vec::new();
        match self {
            ElfSectionHeader::Elf32(h) => {
                put_le_u32(&mut out, h.name);
                put_le_u32(&mut out, h.section_type.code());
                put_le_u32(&mut out, h.flags);
                put_le_u32(&mut out, h.addr);
                put_le_u32(&mut out, h.offset);
                put_le_u32(&mut out, h.size);
                put_le_u32(&mut out, h.link);
                put_le_u32(&mut out, h.info);
                put_le_u32(&mut out, h.addr_align);
                put_le_u32(&mut out, h.entry_size);
            },
            ElfSectionHeader::Elf64(h) => {
                put_le_u32(&mut out, h.name);
                put_le_u32(&mut out, h.section_type.code());
                put_le_u64(&mut out, h.flags);
                put_le_u64(&mut out, h.addr);
                put_le_u64(&mut out, h.offset);
                put_le_u64(&mut out, h.size);
                put_le_u32(&mut out, h.link);
                put_le_u32(&mut out, h.info);
                put_le_u64(&mut out, h.addr_align);
                put_le_u64(&mut out, h.entry_size);
            },
        }
        assert(out@ =~= self.bytes());
        out
    }
}

/// Symbol table entry of the 32-bit class.
#[derive(Clone, Copy, Debug)]
pub struct Elf32SymbolTableEntry {
    pub name_offset: u32,
    pub value: u32,
    pub size: u32,
    pub info: u8,
    pub other: u8,
    pub section_index: u16,
}

/// Symbol table entry of the 64-bit class.
#[derive(Clone, Copy, Debug)]
pub struct Elf64SymbolTableEntry {
    pub name_offset: u32,
    pub info: u8,
    pub other: u8,
    pub section_index: u16,
    pub value: u64,
    pub size: u64,
}

impl Elf32SymbolTableEntry {
    pub open spec fn bytes(self) -> Seq<u8> {
        le_bytes_u32(self.name_offset) + le_bytes_u32(self.value) + le_bytes_u32(self.size)
            + seq![self.info, self.other] + le_bytes_u16(self.section_index)
    }
}

impl Elf64SymbolTableEntry {
    pub open spec fn bytes(self) -> Seq<u8> {
        le_bytes_u32(self.name_offset) + seq![self.info, self.other] + le_bytes_u16(
            self.section_index,
        ) + le_bytes_u64(self.value) + le_bytes_u64(self.size)
    }
}

/// A symbol table entry, in the shape of its class.
#[derive(Clone, Copy, Debug)]
pub enum ElfSymbolTableEntry {
    Elf32(Elf32SymbolTableEntry),
    Elf64(Elf64SymbolTableEntry),
}

impl ElfSymbolTableEntry {
    /// Whether the entry has the shape of the 64-bit class.
    pub open spec fn is_wide(self) -> bool {
        self is Elf64
    }

    /// Where the symbol's name starts in the name string table.
    pub open spec fn name_offset(self) -> int {
        match self {
            ElfSymbolTableEntry::Elf32(e) => e.name_offset as int,
            ElfSymbolTableEntry::Elf64(e) => e.name_offset as int,
        }
    }

    /// The symbol's address.
    pub open spec fn value(self) -> int {
        match self {
            ElfSymbolTableEntry::Elf32(e) => e.value as int,
            ElfSymbolTableEntry::Elf64(e) => e.value as int,
        }
    }

    /// The symbol's size in bytes.
    pub open spec fn size(self) -> int {
        match self {
            ElfSymbolTableEntry::Elf32(e) => e.size as int,
            ElfSymbolTableEntry::Elf64(e) => e.size as int,
        }
    }

    /// The encoding of the entry.
    pub open spec fn bytes(self) -> Seq<u8> {
        match self {
            ElfSymbolTableEntry::Elf32(e) => e.bytes(),
            ElfSymbolTableEntry::Elf64(e) => e.bytes(),
        }
    }

    /// The bytes of the entry as they stand in the file.
    pub fn as_bytes(&self) -> (r: Vec<u8>)
        ensures
            r@ == self.bytes(),
    {
        let mut out: Vec<u8> = Vec::new();
        match self {
            ElfSymbolTableEntry::Elf32(e) => {
                put_le_u32(&mut out, e.name_offset);
                put_le_u32(&mut out, e.value);
                put_le_u32(&mut out, e.size);
                out.push(e.info);
                out.push(e.other);
                put_le_u16(&mut out, e.section_index);
            },
            ElfSymbolTableEntry::Elf64(e) => {
                put_le_u32(&mut out, e.name_offset);
                out.push(e.info);
                out.push(e.other);
                put_le_u16(&mut out, e.section_index);
                put_le_u64(&mut out, e.value);
                put_le_u64(&mut out, e.size);
            },
        }
        assert(out@ =~= self.bytes());
        out
    }
}

/// The file header takes the size that its class gives it.
pub proof fn lemma_header_len(
    program_header_entry_count: int,
    section_header_entry_count: int,
    entry: u32,
    machine: MachineTarget,
)
    ensures
        ElfHeader::spec_new(
            program_header_entry_count,
            section_header_entry_count,
            entry,
            machine,
        ).bytes().len() == header_size(machine),
{
}

/// How a file header made by [`ElfHeader::new`] starts: with the ELF magic,
/// the class of the target, the mark of little-endian data, and, behind the
/// identification, the file type "executable" and the machine code.
pub proof fn lemma_header_identification(
    program_header_entry_count: int,
    section_header_entry_count: int,
    entry: u32,
    machine: MachineTarget,
)
    ensures
        ({
            let header = ElfHeader::spec_new(
                program_header_entry_count,
                section_header_entry_count,
                entry,
                machine,
            ).bytes();
            &&& header.subrange(0, 4) == seq![0x7fu8, 0x45u8, 0x4cu8, 0x46u8]
            &&& header[4] == if spec_is_64bit(machine) {
                2u8
            } else {
                1u8
            }
            &&& header[5] == 1u8
            &&& header.subrange(16, 18) == le_bytes_u16(2)
            &&& header.subrange(18, 20) == le_bytes_u16(machine.spec_machine_code())
        }),
{
    let header = ElfHeader::spec_new(
        program_header_entry_count,
        section_header_entry_count,
        entry,
        machine,
    ).bytes();
    assert(header.subrange(0, 4) =~= seq![0x7fu8, 0x45u8, 0x4cu8, 0x46u8]);
    assert(header.subrange(16, 18) =~= le_bytes_u16(2));
    assert(header.subrange(18, 20) =~= le_bytes_u16(machine.spec_machine_code()));
}

/// A program header takes 32 bytes in the 32-bit class and 56 in the 64-bit.
pub proof fn lemma_program_header_len(h: ElfProgramHeader)
    ensures
        h.bytes().len() == if h.is_wide() {
            ELF64_PROGRAM_HEADER_SIZE
        } else {
            ELF32_PROGRAM_HEADER_SIZE
        },
{
}

/// A section header takes 40 bytes in the 32-bit class and 64 in the 64-bit.
pub proof fn lemma_section_header_len(h: ElfSectionHeader)
    ensures
        h.bytes().len() == if h.is_wide() {
            ELF64_SECTION_HEADER_SIZE
        } else {
            ELF32_SECTION_HEADER_SIZE
        },
{
}

/// A symbol table entry takes 16 bytes in the 32-bit class and 24 in the
/// 64-bit.
pub proof fn lemma_symbol_entry_len(e: ElfSymbolTableEntry)
    ensures
        e.bytes().len() == if e.is_wide() {
            ELF64_SYMBOL_TABLE_ENTRY_SIZE
        } else {
            ELF32_SYMBOL_TABLE_ENTRY_SIZE
        },
{
}

} // verus!
