//! Rendering of the output image: the program headers and section headers
//! that a layout calls for, and the bytes of the whole file.
use vstd::prelude::*;
use crate::elf::{
    Elf32ProgramHeader, Elf32SectionHeader, Elf64ProgramHeader, Elf64SectionHeader, ElfHeader,
    ElfProgramHeader, ElfProgramType, ElfSectionHeader, ElfSectionType, ElfSymbolTableEntry,
    SYM_STRING_TABLE_INDEX,
};
use crate::layout::{
    Layout, PAD_SIZE, PROGRAM_HEADER_COUNT, SECTION_HEADER_COUNT, SECTION_NAME_TABLE_SIZE,
};
use crate::target::{is_64bit, spec_is_64bit};
use crate::wire::{join, put_bytes};

verus! {

pub const PH_FLAG_EXEC: u32 = 1;

pub const PH_FLAG_WRITE: u32 = 2;

pub const PH_FLAG_READ: u32 = 4;

pub const SH_FLAG_WRITE: u32 = 1;

pub const SH_FLAG_ALLOC: u32 = 2;

pub const SH_FLAG_EXEC: u32 = 4;

/// Offsets of the section names in the section name string table. They
/// follow from the order in which the names stand in it.
pub const SH_NAME_NULL: u32 = 0;

pub const SH_NAME_TEXT: u32 = 1;

pub const SH_NAME_DATA: u32 = 7;

pub const SH_NAME_SYMTAB: u32 = 13;

pub const SH_NAME_STRTAB: u32 = 21;

pub const SH_NAME_SHSTRTAB: u32 = 29;

/// A program header with the given fields, in the shape of the class.
pub open spec fn spec_program_header(
    wide: bool,
    program_type: ElfProgramType,
    offset: u64,
    virtual_addr: u64,
    physical_addr: u64,
    size: u32,
    flags: u32,
    align: u32,
) -> ElfProgramHeader {
    if wide {
        ElfProgramHeader::Elf64(
            Elf64ProgramHeader {
                program_type,
                flags,
                offset,
                virtual_addr,
                physical_addr,
                file_size: size as u64,
                memory_size: size as u64,
                align: align as u64,
            },
        )
    } else {
        ElfProgramHeader::Elf32(
            Elf32ProgramHeader {
                program_type,
                offset: offset as u32,
                virtual_addr: virtual_addr as u32,
                physical_addr: physical_addr as u32,
                file_size: size,
                memory_size: size,
                flags,
                align,
            },
        )
    }
}

/// Builds a program header in the shape of the class. The segment takes as
/// much room in memory as in the file.
pub fn program_header(
    wide: bool,
    program_type: ElfProgramType,
    offset: u64,
    virtual_addr: u64,
    physical_addr: u64,
    size: u32,
    flags: u32,
    align: u32,
) -> (r: ElfProgramHeader)
    requires
        !wide ==> offset <= u32::MAX && virtual_addr <= u32::MAX && physical_addr <= u32::MAX,
    ensures
        r == spec_program_header(
            wide,
            program_type,
            offset,
            virtual_addr,
            physical_addr,
            size,
            flags,
            align,
        ),
{
    if wide {
        ElfProgramHeader::Elf64(
            Elf64ProgramHeader {
                program_type,
                flags,
                offset,
                virtual_addr,
                physical_addr,
                file_size: size as u64,
                memory_size: size as u64,
                align: align as u64,
            },
        )
    } else {
        ElfProgramHeader::Elf32(
            Elf32ProgramHeader {
                program_type,
                offset: offset as u32,
                virtual_addr: virtual_addr as u32,
                physical_addr: physical_addr as u32,
                file_size: size,
                memory_size: size,
                flags,
                align,
            },
        )
    }
}

/// The three program headers of an image: the text segment, loaded readable
/// and executable; the data segment, loaded readable and writable; and the
/// symbol table of the a.out image, which is kept in the file but not loaded.
pub open spec fn spec_program_headers(l: Layout) -> Seq<ElfProgramHeader> {
    let wide = spec_is_64bit(l.machine);
    seq![
        spec_program_header(
            wide,
            ElfProgramType::Load,
            l.text_offset,
            l.text_addr,
            l.entry as u64,
            l.text_size,
            PH_FLAG_READ | PH_FLAG_EXEC,
            4096,
        ),
        spec_program_header(
            wide,
            ElfProgramType::Load,
            l.data_offset,
            l.data_addr,
            l.data_load_addr,
            l.data_size,
            PH_FLAG_READ | PH_FLAG_WRITE,
            4096,
        ),
        spec_program_header(
            wide,
            ElfProgramType::Null,
            l.retained_symbol_table_offset,
            0,
            0,
            l.retained_symbol_table_size,
            PH_FLAG_READ,
            4,
        ),
    ]
}

/// Builds the program headers that the layout calls for.
pub fn program_headers(l: &Layout) -> (r: Vec<ElfProgramHeader>)
    requires
        l.wf(),
        l.addresses_fit(),
    ensures
        r@ == spec_program_headers(*l),
{
    let wide = is_64bit(l.machine);
    let mut headers: Vec<ElfProgramHeader> = Vec::new();
    headers.push(
        program_header(
            wide,
            ElfProgramType::Load,
            l.text_offset,
            l.text_addr,
            l.entry as u64,
            l.text_size,
            PH_FLAG_READ | PH_FLAG_EXEC,
            4096,
        ),
    );
    headers.push(
        program_header(
            wide,
            ElfProgramType::Load,
            l.data_offset,
            l.data_addr,
            l.data_load_addr,
            l.data_size,
            PH_FLAG_READ | PH_FLAG_WRITE,
            4096,
        ),
    );
    headers.push(
        program_header(
            wide,
            ElfProgramType::Null,
            l.retained_symbol_table_offset,
            0,
            0,
            l.retained_symbol_table_size,
            PH_FLAG_READ,
            4,
        ),
    );
    assert(headers@ =~= spec_program_headers(*l));
    headers
}

/// A section header with the given fields, in the shape of the class.
pub open spec fn spec_section_header(
    wide: bool,
    name: u32,
    section_type: ElfSectionType,
    flags: u32,
    addr: u64,
    offset: u64,
    size: u64,
    link: u32,
    info: u32,
    addr_align: u32,
    entry_size: u32,
) -> ElfSectionHeader {
    if wide {
        ElfSectionHeader::Elf64(
            Elf64SectionHeader {
                name,
                section_type,
                flags: flags as u64,
                addr,
                offset,
                size,
                link,
                info,
                addr_align: addr_align as u64,
                entry_size: entry_size as u64,
            },
        )
    } else {
        ElfSectionHeader::Elf32(
            Elf32SectionHeader {
                name,
                section_type,
                flags,
                addr: addr as u32,
                offset: offset as u32,
                size: size as u32,
                link,
                info,
                addr_align,
                entry_size,
            },
        )
    }
}

/// Builds a section header in the shape of the class.
pub fn section_header(
    wide: bool,
    name: u32,
    section_type: ElfSectionType,
    flags: u32,
    addr: u64,
    offset: u64,
    size: u64,
    link: u32,
    info: u32,
    addr_align: u32,
    entry_size: u32,
) -> (r: ElfSectionHeader)
    requires
        !wide ==> addr <= u32::MAX && offset <= u32::MAX && size <= u32::MAX,
    ensures
        r == spec_section_header(
            wide,
            name,
            section_type,
            flags,
            addr,
            offset,
            size,
            link,
            info,
            addr_align,
            entry_size,
        ),
{
    if wide {
        ElfSectionHeader::Elf64(
            Elf64SectionHeader {
                name,
                section_type,
                flags: flags as u64,
                addr,
                offset,
                size,
                link,
                info,
                addr_align: addr_align as u64,
                entry_size: entry_size as u64,
            },
        )
    } else {
        ElfSectionHeader::Elf32(
            Elf32SectionHeader {
                name,
                section_type,
                flags,
                addr: addr as u32,
                offset: offset as u32,
                size: size as u32,
                link,
                info,
                addr_align,
                entry_size,
            },
        )
    }
}

/// The six section headers of an image whose symbol table has
/// `symbol_count` entries and whose name table has `name_table_len` bytes:
/// the null section, `.text`, `.data`, `.symtab`, `.strtab`, `.shstrtab`.
pub open spec fn spec_section_headers(l: Layout, symbol_count: int, name_table_len: int) -> Seq<
    ElfSectionHeader,
> {
    let wide = spec_is_64bit(l.machine);
    seq![
        spec_section_header(wide, SH_NAME_NULL, ElfSectionType::Null, 0, 0, 0, 0, 0, 0, 0, 0),
        spec_section_header(
            wide,
            SH_NAME_TEXT,
            ElfSectionType::ProgBits,
            SH_FLAG_ALLOC | SH_FLAG_EXEC,
            l.text_addr,
            l.text_offset,
            l.text_size as u64,
            1,
            0,
            64,
            0,
        ),
        spec_section_header(
            wide,
            SH_NAME_DATA,
            ElfSectionType::ProgBits,
            SH_FLAG_ALLOC | SH_FLAG_WRITE,
            l.data_addr,
            l.data_offset,
            l.data_size as u64,
            1,
            0,
            32,
            0,
        ),
        spec_section_header(
            wide,
            SH_NAME_SYMTAB,
            ElfSectionType::SymbolTable,
            0,
            0,
            l.symbol_table_offset,
            l.symbol_table_size(symbol_count) as u64,
            SYM_STRING_TABLE_INDEX,
            symbol_count as u32,
            8,
            l.symbol_entry_size as u32,
        ),
        spec_section_header(
            wide,
            SH_NAME_STRTAB,
            ElfSectionType::SymbolStringTable,
            0,
            0,
            l.name_table_offset(symbol_count) as u64,
            name_table_len as u64,
            0,
            0,
            1,
            0,
        ),
        spec_section_header(
            wide,
            SH_NAME_SHSTRTAB,
            ElfSectionType::SymbolStringTable,
            0,
            0,
            l.section_name_table_offset(symbol_count, name_table_len) as u64,
            SECTION_NAME_TABLE_SIZE as u64,
            0,
            0,
            1,
            0,
        ),
    ]
}

/// Builds the section headers that the layout calls for, for a symbol table
/// of `symbol_count` entries and a name table of `name_table_len` bytes.
pub fn section_headers(l: &Layout, symbol_count: usize, name_table_len: usize) -> (r: Vec<
    ElfSectionHeader,
>)
    requires
        l.wf(),
        l.addresses_fit(),
        l.tables_fit(symbol_count as int, name_table_len as int),
    ensures
        r@ == spec_section_headers(*l, symbol_count as int, name_table_len as int),
{
    let wide = is_64bit(l.machine);
    assert(0 <= symbol_count * l.symbol_entry_size <= 0xffff_ffff * 24) by (nonlinear_arith)
        requires
            0 <= symbol_count <= 0xffff_ffff,
            0 <= l.symbol_entry_size <= 24,
    ;
    let symbol_table_size: u64 = symbol_count as u64 * l.symbol_entry_size;
    let name_table_offset: u64 = l.symbol_table_offset + symbol_table_size;
    let section_name_table_offset: u64 = name_table_offset + name_table_len as u64;
    let mut headers: Vec<ElfSectionHeader> = Vec::new();
    headers.push(section_header(wide, SH_NAME_NULL, ElfSectionType::Null, 0, 0, 0, 0, 0, 0, 0, 0));
    headers.push(
        section_header(
            wide,
            SH_NAME_TEXT,
            ElfSectionType::ProgBits,
            SH_FLAG_ALLOC | SH_FLAG_EXEC,
            l.text_addr,
            l.text_offset,
            l.text_size as u64,
            1,
            0,
            64,
            0,
        ),
    );
    headers.push(
        section_header(
            wide,
            SH_NAME_DATA,
            ElfSectionType::ProgBits,
            SH_FLAG_ALLOC | SH_FLAG_WRITE,
            l.data_addr,
            l.data_offset,
            l.data_size as u64,
            1,
            0,
            32,
            0,
        ),
    );
    headers.push(
        section_header(
            wide,
            SH_NAME_SYMTAB,
            ElfSectionType::SymbolTable,
            0,
            0,
            l.symbol_table_offset,
            symbol_table_size,
            SYM_STRING_TABLE_INDEX,
            symbol_count as u32,
            8,
            l.symbol_entry_size as u32,
        ),
    );
    headers.push(
        section_header(
            wide,
            SH_NAME_STRTAB,
            ElfSectionType::SymbolStringTable,
            0,
            0,
            name_table_offset,
            name_table_len as u64,
            0,
            0,
            1,
            0,
        ),
    );
    headers.push(
        section_header(
            wide,
            SH_NAME_SHSTRTAB,
            ElfSectionType::SymbolStringTable,
            0,
            0,
            section_name_table_offset,
            SECTION_NAME_TABLE_SIZE as u64,
            0,
            0,
            1,
            0,
        ),
    );
    assert(headers@ =~= spec_section_headers(*l, symbol_count as int, name_table_len as int));
    headers
}

/// The names of the six sections, in the order of their headers, as ASCII
/// bytes: the empty name, `.text`, `.data`, `.symtab`, `.strtab`,
/// `.shstrtab`.
pub open spec fn section_names() -> Seq<Seq<u8>> {
    seq![
        Seq::<u8>::empty(),
        seq![0x2eu8, 0x74, 0x65, 0x78, 0x74],
        seq![0x2eu8, 0x64, 0x61, 0x74, 0x61],
        seq![0x2eu8, 0x73, 0x79, 0x6d, 0x74, 0x61, 0x62],
        seq![0x2eu8, 0x73, 0x74, 0x72, 0x74, 0x61, 0x62],
        seq![0x2eu8, 0x73, 0x68, 0x73, 0x74, 0x72, 0x74, 0x61, 0x62],
    ]
}

/// The offsets at which the section headers name their sections.
pub open spec fn section_name_offsets() -> Seq<u32> {
    seq![SH_NAME_NULL, SH_NAME_TEXT, SH_NAME_DATA, SH_NAME_SYMTAB, SH_NAME_STRTAB, SH_NAME_SHSTRTAB]
}

/// The section name string table: the six names, each followed by a zero
/// byte. The empty name comes first, so the table starts with a zero byte.
pub open spec fn section_name_table() -> Seq<u8> {
    let names = section_names();
    names[0] + seq![0u8] + names[1] + seq![0u8] + names[2] + seq![0u8] + names[3] + seq![0u8]
        + names[4] + seq![0u8] + names[5] + seq![0u8]
}

/// Each section's name stands in the section name string table at the offset
/// that its header gives, and is terminated there.
pub proof fn lemma_section_names_at_offsets(i: int)
    requires
        0 <= i < SECTION_HEADER_COUNT,
    ensures
        section_name_table().len() == SECTION_NAME_TABLE_SIZE,
        section_name_table().subrange(
            section_name_offsets()[i] as int,
            section_name_offsets()[i] + section_names()[i].len() + 1,
        ) == section_names()[i] + seq![0u8],
{
    let t = section_name_table();
    let off = section_name_offsets()[i] as int;
    let name = section_names()[i];
    assert(t.len() == 39);
    assert(t.subrange(off, off + name.len() + 1) =~= name + seq![0u8]);
}

/// Builds the section name string table.
pub fn section_name_table_bytes() -> (r: Vec<u8>)
    ensures
        r@ == section_name_table(),
{
    let text: [u8; 6] = [0x2e, 0x74, 0x65, 0x78, 0x74, 0];
    let data: [u8; 6] = [0x2e, 0x64, 0x61, 0x74, 0x61, 0];
    let symtab: [u8; 8] = [0x2e, 0x73, 0x79, 0x6d, 0x74, 0x61, 0x62, 0];
    let strtab: [u8; 8] = [0x2e, 0x73, 0x74, 0x72, 0x74, 0x61, 0x62, 0];
    let shstrtab: [u8; 10] = [0x2e, 0x73, 0x68, 0x73, 0x74, 0x72, 0x74, 0x61, 0x62, 0];
    let mut out: Vec<u8> = Vec::new();
    out.push(0);
    put_bytes(&mut out, text.as_slice());
    put_bytes(&mut out, data.as_slice());
    put_bytes(&mut out, symtab.as_slice());
    put_bytes(&mut out, strtab.as_slice());
    put_bytes(&mut out, shstrtab.as_slice());
    assert(out@ =~= section_name_table());
    out
}

/// The encodings of the program headers, one after the other.
pub open spec fn program_header_bytes(headers: Seq<ElfProgramHeader>) -> Seq<u8> {
    join(Seq::new(headers.len(), |i: int| headers[i].bytes()))
}

/// The encodings of the section headers, one after the other.
pub open spec fn section_header_bytes(headers: Seq<ElfSectionHeader>) -> Seq<u8> {
    join(Seq::new(headers.len(), |i: int| headers[i].bytes()))
}

/// The encodings of the symbol table entries, one after the other.
pub open spec fn symbol_table_bytes(entries: Seq<ElfSymbolTableEntry>) -> Seq<u8> {
    join(Seq::new(entries.len(), |i: int| entries[i].bytes()))
}

/// The pad block: twelve zero bytes.
pub open spec fn pad_bytes() -> Seq<u8> {
    Seq::new(PAD_SIZE as nat, |i: int| 0u8)
}

/// The whole image: file header, program headers, section headers, pad
/// block, the carried bytes, the symbol table, its name string table, and
/// the section name string table.
pub open spec fn image_bytes(
    l: Layout,
    carried: Seq<u8>,
    symbols: Seq<ElfSymbolTableEntry>,
    names: Seq<u8>,
) -> Seq<u8> {
    ElfHeader::spec_new(
        PROGRAM_HEADER_COUNT as int,
        SECTION_HEADER_COUNT as int,
        l.entry,
        l.machine,
    ).bytes() + program_header_bytes(spec_program_headers(l)) + section_header_bytes(
        spec_section_headers(l, symbols.len() as int, names.len() as int),
    ) + pad_bytes() + carried + symbol_table_bytes(symbols) + names + section_name_table()
}

/// Appends the encodings of the program headers to `out`.
fn put_program_headers(out: &mut Vec<u8>, headers: &Vec<ElfProgramHeader>)
    ensures
        final(out)@ == old(out)@ + program_header_bytes(headers@),
{
    let mut i: usize = 0;
    while i < headers.len()
        invariant
            i <= headers@.len(),
            out@ == old(out)@ + program_header_bytes(headers@.take(i as int)),
        decreases headers@.len() - i,
    {
        let b = headers[i].as_bytes();
        put_bytes(out, b.as_slice());
        proof {
            let before = Seq::new(i as nat, |k: int| headers@.take(i as int)[k].bytes());
            let after = Seq::new((i + 1) as nat, |k: int| headers@.take(i + 1)[k].bytes());
            assert(after.drop_last() =~= before);
        }
        i = i + 1;
    }
    assert(headers@.take(headers@.len() as int) =~= headers@);
}

/// Appends the encodings of the section headers to `out`.
fn put_section_headers(out: &mut Vec<u8>, headers: &Vec<ElfSectionHeader>)
    ensures
        final(out)@ == old(out)@ + section_header_bytes(headers@),
{
    let mut i: usize = 0;
    while i < headers.len()
        invariant
            i <= headers@.len(),
            out@ == old(out)@ + section_header_bytes(headers@.take(i as int)),
        decreases headers@.len() - i,
    {
        let b = headers[i].as_bytes();
        put_bytes(out, b.as_slice());
        proof {
            let before = Seq::new(i as nat, |k: int| headers@.take(i as int)[k].bytes());
            let after = Seq::new((i + 1) as nat, |k: int| headers@.take(i + 1)[k].bytes());
            assert(after.drop_last() =~= before);
        }
        i = i + 1;
    }
    assert(headers@.take(headers@.len() as int) =~= headers@);
}

/// Appends the encodings of the symbol table entries to `out`.
fn put_symbol_table(out: &mut Vec<u8>, entries: &Vec<ElfSymbolTableEntry>)
    ensures
        final(out)@ == old(out)@ + symbol_table_bytes(entries@),
{
    let mut i: usize = 0;
    while i < entries.len()
        invariant
            i <= entries@.len(),
            out@ == old(out)@ + symbol_table_bytes(entries@.take(i as int)),
        decreases entries@.len() - i,
    {
        let b = entries[i].as_bytes();
        put_bytes(out, b.as_slice());
        proof {
            let before = Seq::new(i as nat, |k: int| entries@.take(i as int)[k].bytes());
            let after = Seq::new((i + 1) as nat, |k: int| entries@.take(i + 1)[k].bytes());
            assert(after.drop_last() =~= before);
        }
        i = i + 1;
    }
    assert(entries@.take(entries@.len() as int) =~= entries@);
}

/// Appends the pad block to `out`.
fn put_pad(out: &mut Vec<u8>)
    ensures
        final(out)@ == old(out)@ + pad_bytes(),
{
    let mut i: usize = 0;
    while i < PAD_SIZE
        invariant
            i <= PAD_SIZE,
            out@ == old(out)@ + Seq::new(i as nat, |k: int| 0u8),
        decreases PAD_SIZE - i,
    {
        out.push(0);
        i = i + 1;
    }
}

/// Renders the image that the layout describes around the carried bytes,
/// the symbol table and the name string table.
pub fn emit_elf(
    l: &Layout,
    carried: &[u8],
    symbols: &Vec<ElfSymbolTableEntry>,
    names: &Vec<u8>,
) -> (r: Vec<u8>)
    requires
        l.wf(),
        l.addresses_fit(),
        l.tables_fit(symbols@.len() as int, names@.len() as int),
    ensures
        r@ == image_bytes(*l, carried@, symbols@, names@),
{
    let program_headers = program_headers(l);
    let section_headers = section_headers(l, symbols.len(), names.len());
    let section_names = section_name_table_bytes();
    let header = ElfHeader::new(PROGRAM_HEADER_COUNT, SECTION_HEADER_COUNT, l.entry, l.machine);

    let mut out = header.as_bytes();
    put_program_headers(&mut out, &program_headers);
    put_section_headers(&mut out, &section_headers);
    put_pad(&mut out);
    put_bytes(&mut out, carried);
    put_symbol_table(&mut out, symbols);
    put_bytes(&mut out, names.as_slice());
    put_bytes(&mut out, section_names.as_slice());
    out
}

} // verus!
