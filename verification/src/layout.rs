//! Planning of the output image: where each region lies in the file and at
//! which address each segment is loaded.
//!
//! The image is laid out as file header, program headers, section headers, a
//! pad block, the bytes carried over from the input (text, data, the a.out
//! symbol table), the new symbol table, its name string table and the section
//! name string table. All of it is computed in 64 bits; whether the result
//! can be written in the class of the target is a separate question, answered
//! by [`Layout::addresses_fit`] and [`Layout::tables_fit`].
use vstd::prelude::*;
use crate::elf::{header_size, program_header_size, section_header_size, symbol_entry_size};
use crate::target::{is_64bit, spec_is_64bit, MachineTarget};

verus! {

/// Number of program headers: text, data, and the retained symbol table.
pub const PROGRAM_HEADER_COUNT: usize = 3;

/// Number of section headers: the null section, `.text`, `.data`, `.symtab`,
/// `.strtab` and `.shstrtab`.
pub const SECTION_HEADER_COUNT: usize = 6;

pub const PAD_BASIC_SIZE: usize = 4;

pub const PAD_EXTRA_SIZE: usize = 8;

/// Size of the pad block between the headers and the carried bytes.
pub const PAD_SIZE: usize = 12;

/// Length of the section name string table.
pub const SECTION_NAME_TABLE_SIZE: usize = 39;

/// `v` rounded up to a multiple of 4096.
pub open spec fn round_up_4k(v: int) -> int {
    (v + 4095) / 4096 * 4096
}

/// Rounds `v` up to a multiple of 4096. The result must fit 32 bits.
pub fn align_4k(v: u32) -> (r: u32)
    requires
        v <= 0xffff_f000,
    ensures
        r == round_up_4k(v as int),
        v <= r < v + 4096,
        r % 4096 == 0,
{
    (v + 4095) / 4096 * 4096
}

/// The plan of an output image.
#[derive(Clone, Copy, Debug)]
pub struct Layout {
    pub machine: MachineTarget,
    /// Sizes of the file header, of one program header, of one section
    /// header and of one symbol table entry in the target's class.
    pub header_size: u64,
    pub program_header_size: u64,
    pub section_header_size: u64,
    pub symbol_entry_size: u64,
    pub program_header_count: u64,
    pub section_header_count: u64,
    pub pad_size: u64,
    /// Sizes of the carried regions.
    pub text_size: u32,
    pub data_size: u32,
    pub retained_symbol_table_size: u32,
    pub entry: u32,
    /// Where the carried bytes start in the file.
    pub main_offset: u64,
    pub text_offset: u64,
    pub data_offset: u64,
    pub retained_symbol_table_offset: u64,
    /// Where the new symbol table starts: right behind the carried bytes.
    pub symbol_table_offset: u64,
    /// Address at which the text segment is loaded.
    pub text_addr: u64,
    /// Address of the data segment before the virtual base is added.
    pub data_load_addr: u64,
    /// Address at which the data segment is loaded.
    pub data_addr: u64,
}

/// Where the carried bytes start in an image for `machine`: behind the file
/// header, the program headers, the section headers and the pad block.
pub open spec fn main_offset_of(machine: MachineTarget) -> int {
    header_size(machine) + PROGRAM_HEADER_COUNT * program_header_size(machine)
        + SECTION_HEADER_COUNT * section_header_size(machine) + PAD_SIZE
}

impl Layout {
    /// The plan for an image for `machine` that carries `text_size` bytes of
    /// text, `data_size` bytes of data and `symbol_table_size` bytes of the
    /// a.out symbol table, and is entered at `entry`.
    pub open spec fn spec_plan(
        machine: MachineTarget,
        text_size: u32,
        data_size: u32,
        symbol_table_size: u32,
        entry: u32,
    ) -> Layout {
        let main = main_offset_of(machine);
        Layout {
            machine,
            header_size: header_size(machine) as u64,
            program_header_size: program_header_size(machine) as u64,
            section_header_size: section_header_size(machine) as u64,
            symbol_entry_size: symbol_entry_size(machine) as u64,
            program_header_count: PROGRAM_HEADER_COUNT as u64,
            section_header_count: SECTION_HEADER_COUNT as u64,
            pad_size: PAD_SIZE as u64,
            text_size,
            data_size,
            retained_symbol_table_size: symbol_table_size,
            entry,
            main_offset: main as u64,
            text_offset: main as u64,
            data_offset: (main + text_size) as u64,
            retained_symbol_table_offset: (main + text_size + data_size) as u64,
            symbol_table_offset: (main + text_size + data_size + symbol_table_size) as u64,
            text_addr: (machine.spec_virtual_base() + entry) as u64,
            data_load_addr: round_up_4k(entry as int) as u64,
            data_addr: (machine.spec_virtual_base() + round_up_4k(entry as int)) as u64,
        }
    }

    /// Plans the image. This is plain arithmetic and never fails.
    pub fn plan(
        machine: MachineTarget,
        text_size: u32,
        data_size: u32,
        symbol_table_size: u32,
        entry: u32,
    ) -> (r: Layout)
        ensures
            r == Layout::spec_plan(machine, text_size, data_size, symbol_table_size, entry),
            r.wf(),
    {
        let wide = is_64bit(machine);
        let header_size: u64 = if wide {
            64
        } else {
            52
        };
        let program_header_size: u64 = if wide {
            56
        } else {
            32
        };
        let section_header_size: u64 = if wide {
            64
        } else {
            40
        };
        let symbol_entry_size: u64 = if wide {
            24
        } else {
            16
        };
        let main_offset: u64 = header_size + 3 * program_header_size + 6 * section_header_size
            + 12;
        let data_load_addr: u64 = if entry <= 0xffff_f000 {
            align_4k(entry) as u64
        } else {
            0x1_0000_0000
        };
        let base = machine.virtual_base();
        Layout {
            machine,
            header_size,
            program_header_size,
            section_header_size,
            symbol_entry_size,
            program_header_count: 3,
            section_header_count: 6,
            pad_size: 12,
            text_size,
            data_size,
            retained_symbol_table_size: symbol_table_size,
            entry,
            main_offset,
            text_offset: main_offset,
            data_offset: main_offset + text_size as u64,
            retained_symbol_table_offset: main_offset + text_size as u64 + data_size as u64,
            symbol_table_offset: main_offset + text_size as u64 + data_size as u64
                + symbol_table_size as u64,
            text_addr: base + entry as u64,
            data_load_addr,
            data_addr: base + data_load_addr,
        }
    }

    /// Size in bytes of a symbol table of `symbol_count` entries.
    pub open spec fn symbol_table_size(self, symbol_count: int) -> int {
        symbol_count * self.symbol_entry_size
    }

    /// Where the name string table starts: behind the new symbol table.
    pub open spec fn name_table_offset(self, symbol_count: int) -> int {
        self.symbol_table_offset + self.symbol_table_size(symbol_count)
    }

    /// Where the section name string table starts: behind the name string
    /// table.
    pub open spec fn section_name_table_offset(
        self,
        symbol_count: int,
        name_table_len: int,
    ) -> int {
        self.name_table_offset(symbol_count) + name_table_len
    }

    /// Whether the plan obeys the rules by which plans are made: the regions
    /// follow one another from `main_offset` on, and the sizes are those of a
    /// class.
    pub open spec fn wf(self) -> bool {
        &&& self.symbol_entry_size == symbol_entry_size(self.machine)
        &&& self.main_offset == main_offset_of(self.machine)
        &&& self.text_offset == self.main_offset
        &&& self.data_offset == self.text_offset + self.text_size
        &&& self.retained_symbol_table_offset == self.data_offset + self.data_size
        &&& self.symbol_table_offset == self.retained_symbol_table_offset
            + self.retained_symbol_table_size
        &&& self.data_load_addr <= self.data_addr
    }

    /// Whether the addresses and the offsets of the carried regions can be
    /// written in the target's class. In the 64-bit class they always can.
    pub open spec fn addresses_fit(self) -> bool {
        spec_is_64bit(self.machine) || (self.text_addr <= u32::MAX && self.data_addr <= u32::MAX
            && self.symbol_table_offset <= u32::MAX)
    }

    /// Whether a symbol table of `symbol_count` entries and a name table of
    /// `name_table_len` bytes can be described: the count and the length fit
    /// the 32-bit fields that hold them, and in the 32-bit class the last
    /// offset of the file, that of the section name table, fits as well.
    pub open spec fn tables_fit(self, symbol_count: int, name_table_len: int) -> bool {
        &&& 0 <= symbol_count <= u32::MAX
        &&& 0 <= name_table_len <= u32::MAX
        &&& spec_is_64bit(self.machine) || self.section_name_table_offset(
            symbol_count,
            name_table_len,
        ) <= u32::MAX
    }

    /// Whether the image can be written in the target's class with a symbol
    /// table of `symbol_count` entries and a name table of `name_table_len`
    /// bytes.
    pub fn fits(&self, symbol_count: usize, name_table_len: usize) -> (r: bool)
        requires
            self.wf(),
        ensures
            r == (self.addresses_fit() && self.tables_fit(
                symbol_count as int,
                name_table_len as int,
            )),
    {
        if symbol_count > 0xffff_ffff || name_table_len > 0xffff_ffff {
            return false;
        }
        if is_64bit(self.machine) {
            return true;
        }
        assert(0 <= symbol_count * self.symbol_entry_size <= 0xffff_ffff * 24)
            by (nonlinear_arith)
            requires
                0 <= symbol_count <= 0xffff_ffff,
                0 <= self.symbol_entry_size <= 24,
        ;
        let section_name_table_offset: u64 = self.symbol_table_offset + symbol_count as u64
            * self.symbol_entry_size + name_table_len as u64;
        self.text_addr <= 0xffff_ffff && self.data_addr <= 0xffff_ffff
            && section_name_table_offset <= 0xffff_ffff
    }
}

} // verus!
