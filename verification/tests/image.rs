use aout2elf::elf::{
    Elf32SymbolTableEntry, ElfProgramHeader, ElfProgramType, ElfSectionHeader, ElfSectionType,
    ElfSymbolTableEntry,
};
use aout2elf::image::{
    emit_elf, program_header, program_headers, section_header, section_headers,
    section_name_table_bytes,
};
use aout2elf::layout::Layout;
use aout2elf::target::MachineTarget;

#[test]
fn section_names_stand_at_their_offsets() {
    let table = section_name_table_bytes();
    assert_eq!(table, b"\0.text\0.data\0.symtab\0.strtab\0.shstrtab\0".to_vec());
    assert_eq!(table.len(), 39);
    assert_eq!(&table[1..7], b".text\0");
    assert_eq!(&table[7..13], b".data\0");
    assert_eq!(&table[13..21], b".symtab\0");
    assert_eq!(&table[21..29], b".strtab\0");
    assert_eq!(&table[29..39], b".shstrtab\0");
}

#[test]
fn program_headers_of_the_32_bit_class() {
    let l = Layout::plan(MachineTarget::Amd64, 0x20, 0x10, 0x30, 0x1234);
    let hs = program_headers(&l);
    assert_eq!(hs.len(), 3);
    match (&hs[0], &hs[1], &hs[2]) {
        (ElfProgramHeader::Elf32(t), ElfProgramHeader::Elf32(d), ElfProgramHeader::Elf32(s)) => {
            assert_eq!(t.program_type, ElfProgramType::Load);
            assert_eq!(
                (t.offset, t.virtual_addr, t.physical_addr, t.file_size, t.memory_size),
                (400, 0x8000_1234, 0x1234, 0x20, 0x20)
            );
            assert_eq!((t.flags, t.align), (5, 4096));
            assert_eq!(d.program_type, ElfProgramType::Load);
            assert_eq!(
                (d.offset, d.virtual_addr, d.physical_addr, d.file_size, d.memory_size),
                (400 + 0x20, 0x8000_2000, 0x2000, 0x10, 0x10)
            );
            assert_eq!((d.flags, d.align), (6, 4096));
            assert_eq!(s.program_type, ElfProgramType::Null);
            assert_eq!(
                (s.offset, s.virtual_addr, s.physical_addr, s.file_size, s.memory_size),
                (400 + 0x30, 0, 0, 0x30, 0x30)
            );
            assert_eq!((s.flags, s.align), (4, 4));
        }
        _ => panic!("amd64 images are of the 32-bit class"),
    }
}

#[test]
fn program_headers_of_the_64_bit_class() {
    let l = Layout::plan(MachineTarget::RiscV64, 0x1000, 0x200, 0x80, 0x8020_0010);
    let hs = program_headers(&l);
    assert_eq!(hs.len(), 3);
    match (&hs[0], &hs[1], &hs[2]) {
        (ElfProgramHeader::Elf64(t), ElfProgramHeader::Elf64(d), ElfProgramHeader::Elf64(s)) => {
            assert_eq!(
                (t.offset, t.virtual_addr, t.physical_addr, t.file_size, t.memory_size),
                (628, 0x8020_0010, 0x8020_0010, 0x1000, 0x1000)
            );
            assert_eq!((t.flags, t.align), (5, 4096));
            assert_eq!(
                (d.offset, d.virtual_addr, d.physical_addr, d.file_size, d.memory_size),
                (628 + 0x1000, 0x8020_1000, 0x8020_1000, 0x200, 0x200)
            );
            assert_eq!((d.flags, d.align), (6, 4096));
            assert_eq!(s.program_type, ElfProgramType::Null);
            assert_eq!((s.offset, s.file_size, s.memory_size), (628 + 0x1200, 0x80, 0x80));
            assert_eq!((s.flags, s.align), (4, 4));
        }
        _ => panic!("risc-v images are of the 64-bit class"),
    }
}

#[test]
fn section_headers_of_the_32_bit_class() {
    let l = Layout::plan(MachineTarget::Amd64, 0x20, 0x10, 0x30, 0x1234);
    let hs = section_headers(&l, 3, 9);
    assert_eq!(hs.len(), 6);
    let rows: Vec<[u32; 10]> = hs
        .iter()
        .map(|h| match h {
            ElfSectionHeader::Elf32(h) => [
                h.name,
                h.section_type.code(),
                h.flags,
                h.addr,
                h.offset,
                h.size,
                h.link,
                h.info,
                h.addr_align,
                h.entry_size,
            ],
            ElfSectionHeader::Elf64(_) => panic!("amd64 images are of the 32-bit class"),
        })
        .collect();
    assert_eq!(rows[0], [0, 0, 0, 0, 0, 0, 0, 0, 0, 0]);
    assert_eq!(rows[1], [1, 1, 6, 0x8000_1234, 400, 0x20, 1, 0, 64, 0]);
    assert_eq!(rows[2], [7, 1, 3, 0x8000_2000, 400 + 0x20, 0x10, 1, 0, 32, 0]);
    assert_eq!(rows[3], [13, 2, 0, 0, 400 + 0x60, 48, 4, 3, 8, 16]);
    assert_eq!(rows[4], [21, 3, 0, 0, 400 + 0x60 + 48, 9, 0, 0, 1, 0]);
    assert_eq!(rows[5], [29, 3, 0, 0, 400 + 0x60 + 48 + 9, 39, 0, 0, 1, 0]);
}

#[test]
fn section_headers_of_the_64_bit_class() {
    let l = Layout::plan(MachineTarget::RiscV64, 0x1000, 0x200, 0x80, 0x8020_0010);
    let hs = section_headers(&l, 2, 5);
    let rows: Vec<(u32, u32, u64, u64, u64, u64, u32, u32, u64, u64)> = hs
        .iter()
        .map(|h| match h {
            ElfSectionHeader::Elf64(h) => (
                h.name,
                h.section_type.code(),
                h.flags,
                h.addr,
                h.offset,
                h.size,
                h.link,
                h.info,
                h.addr_align,
                h.entry_size,
            ),
            ElfSectionHeader::Elf32(_) => panic!("risc-v images are of the 64-bit class"),
        })
        .collect();
    assert_eq!(rows[0], (0, 0, 0, 0, 0, 0, 0, 0, 0, 0));
    assert_eq!(rows[1], (1, 1, 6, 0x8020_0010, 628, 0x1000, 1, 0, 64, 0));
    assert_eq!(rows[2], (7, 1, 3, 0x8020_1000, 628 + 0x1000, 0x200, 1, 0, 32, 0));
    assert_eq!(rows[3], (13, 2, 0, 0, 628 + 0x1280, 48, 4, 2, 8, 24));
    assert_eq!(rows[4], (21, 3, 0, 0, 628 + 0x1280 + 48, 5, 0, 0, 1, 0));
    assert_eq!(rows[5], (29, 3, 0, 0, 628 + 0x1280 + 48 + 5, 39, 0, 0, 1, 0));
}

#[test]
fn single_headers_take_the_shape_of_the_class() {
    let narrow = program_header(false, ElfProgramType::Load, 1, 2, 3, 4, 5, 6);
    assert!(matches!(narrow, ElfProgramHeader::Elf32(_)));
    assert_eq!(narrow.as_bytes().len(), 32);
    let wide = program_header(true, ElfProgramType::Load, 1, 2, 3, 4, 5, 6);
    assert!(matches!(wide, ElfProgramHeader::Elf64(_)));
    assert_eq!(wide.as_bytes().len(), 56);
    let narrow = section_header(false, 1, ElfSectionType::ProgBits, 2, 3, 4, 5, 6, 7, 8, 9);
    assert!(matches!(narrow, ElfSectionHeader::Elf32(_)));
    let wide = section_header(true, 1, ElfSectionType::ProgBits, 2, 3, 4, 5, 6, 7, 8, 9);
    assert!(matches!(wide, ElfSectionHeader::Elf64(_)));
}

#[test]
fn image_is_the_parts_in_order() {
    let l = Layout::plan(MachineTarget::Amd64, 2, 1, 1, 0);
    let carried = [0xc0, 0xc1, 0xda, 0x55];
    let symbols = vec![ElfSymbolTableEntry::Elf32(Elf32SymbolTableEntry {
        name_offset: 0,
        value: 0,
        size: 0,
        info: 0,
        other: 0,
        section_index: 0,
    })];
    let names = vec![0u8];
    let image = emit_elf(&l, &carried, &symbols, &names);
    assert_eq!(image.len(), 400 + 4 + 16 + 1 + 39);
    assert_eq!(&image[0..4], &[0x7f, 0x45, 0x4c, 0x46]);
    assert_eq!(&image[388..400], &[0u8; 12]);
    assert_eq!(&image[400..404], &carried);
    assert_eq!(&image[404..420], &[0u8; 16]);
    assert_eq!(image[420], 0);
    assert_eq!(&image[421..], b"\0.text\0.data\0.symtab\0.strtab\0.shstrtab\0");
    let mut headers = Vec::new();
    for h in program_headers(&l) {
        headers.extend_from_slice(&h.as_bytes());
    }
    for h in section_headers(&l, 1, 1) {
        headers.extend_from_slice(&h.as_bytes());
    }
    assert_eq!(&image[52..388], &headers[..]);
}
