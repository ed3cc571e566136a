use aout2elf::elf::{
    Elf32ProgramHeader, Elf32SectionHeader, Elf32SymbolTableEntry, Elf64ProgramHeader,
    Elf64SectionHeader, Elf64SymbolTableEntry, ElfClass, ElfDataEncoding, ElfHeader, ElfId,
    ElfOsAbi, ElfProgramHeader, ElfProgramType, ElfSectionHeader, ElfSectionType,
    ElfSymbolTableEntry, ElfType,
};
use aout2elf::target::MachineTarget;

#[test]
fn identification_of_a_32_bit_file() {
    let id = ElfId::new(ElfClass::Elf32);
    assert_eq!(id.magic, [0x7f, b'E', b'L', b'F']);
    assert_eq!(id.class, ElfClass::Elf32);
    assert_eq!(id.data_encoding, ElfDataEncoding::LittleEndian);
    assert_eq!(id.header_version, 1);
    assert_eq!(id.os_abi, ElfOsAbi::SystemV);
    assert_eq!(id.abi_version, 0);
    assert_eq!(
        id.as_bytes(),
        vec![0x7f, 0x45, 0x4c, 0x46, 1, 1, 1, 0, 0, 0, 0, 0, 0, 0, 0, 0]
    );
}

#[test]
fn identification_of_a_64_bit_file() {
    assert_eq!(
        ElfId::new(ElfClass::Elf64).as_bytes(),
        vec![0x7f, 0x45, 0x4c, 0x46, 2, 1, 1, 0, 0, 0, 0, 0, 0, 0, 0, 0]
    );
}

#[test]
fn codes_of_the_enumerations() {
    assert_eq!(ElfType::Executable.code(), 2);
    assert_eq!(ElfType::NoFileType.code(), 0);
    assert_eq!(ElfType::Core.code(), 4);
    assert_eq!(ElfClass::Invalid.code(), 0);
    assert_eq!(ElfClass::Elf64.code(), 2);
    assert_eq!(ElfDataEncoding::BigEndian.code(), 2);
    assert_eq!(ElfOsAbi::Linux.code(), 3);
    assert_eq!(ElfProgramType::Null.code(), 0);
    assert_eq!(ElfProgramType::Load.code(), 1);
    assert_eq!(ElfProgramType::Note.code(), 4);
    assert_eq!(ElfSectionType::ProgBits.code(), 1);
    assert_eq!(ElfSectionType::SymbolTable.code(), 2);
    assert_eq!(ElfSectionType::SymbolStringTable.code(), 3);
    assert_eq!(ElfSectionType::NoBits.code(), 8);
}

#[test]
fn file_header_of_the_32_bit_class() {
    let h = ElfHeader::new(3, 6, 0x1234, MachineTarget::Amd64);
    let expected: Vec<u8> = vec![
        0x7f, 0x45, 0x4c, 0x46, 1, 1, 1, 0, 0, 0, 0, 0, 0, 0, 0, 0, // identification
        2, 0, // executable
        0x3e, 0, // machine
        1, 0, 0, 0, // version
        0x34, 0x12, 0, 0, // entry
        52, 0, 0, 0, // program headers
        148, 0, 0, 0, // section headers
        0, 0, 0, 0, // flags
        52, 0, 32, 0, 3, 0, 40, 0, 6, 0, 5, 0,
    ];
    assert_eq!(h.as_bytes(), expected);
    assert_eq!(h.as_bytes().len(), 52);
    assert!(matches!(h, ElfHeader::Elf32(_)));
}

#[test]
fn file_header_of_the_64_bit_class() {
    let h = ElfHeader::new(3, 6, 0x8020_0000, MachineTarget::RiscV64);
    let expected: Vec<u8> = vec![
        0x7f, 0x45, 0x4c, 0x46, 2, 1, 1, 0, 0, 0, 0, 0, 0, 0, 0, 0, // identification
        2, 0, // executable
        0xf3, 0, // machine
        1, 0, 0, 0, // version
        0, 0, 0x20, 0x80, 0, 0, 0, 0, // entry
        64, 0, 0, 0, 0, 0, 0, 0, // program headers
        232, 0, 0, 0, 0, 0, 0, 0, // section headers
        0, 0, 0, 0, // flags
        64, 0, 56, 0, 3, 0, 64, 0, 6, 0, 5, 0,
    ];
    assert_eq!(h.as_bytes(), expected);
    assert_eq!(h.as_bytes().len(), 64);
}

#[test]
fn file_header_with_other_counts() {
    let h = ElfHeader::new(0xffff, 0, 0, MachineTarget::Amd64);
    match h {
        ElfHeader::Elf32(h) => {
            assert_eq!(h.program_header_offset, 52);
            assert_eq!(h.section_header_offset, 52 + 0xffff * 32);
            assert_eq!(h.extra.program_header_entry_count, 0xffff);
            assert_eq!(h.extra.section_header_entry_count, 0);
        }
        ElfHeader::Elf64(_) => panic!("amd64 images are of the 32-bit class"),
    }
}

#[test]
fn program_header_of_the_32_bit_class() {
    let h = ElfProgramHeader::Elf32(Elf32ProgramHeader {
        program_type: ElfProgramType::Load,
        offset: 0x0102_0304,
        virtual_addr: 0x1112_1314,
        physical_addr: 0x2122_2324,
        file_size: 0x3132_3334,
        memory_size: 0x4142_4344,
        flags: 5,
        align: 4096,
    });
    let expected: Vec<u8> = vec![
        1, 0, 0, 0, 0x04, 0x03, 0x02, 0x01, 0x14, 0x13, 0x12, 0x11, 0x24, 0x23, 0x22, 0x21, 0x34,
        0x33, 0x32, 0x31, 0x44, 0x43, 0x42, 0x41, 5, 0, 0, 0, 0, 0x10, 0, 0,
    ];
    assert_eq!(h.as_bytes(), expected);
}

#[test]
fn program_header_of_the_64_bit_class() {
    let h = ElfProgramHeader::Elf64(Elf64ProgramHeader {
        program_type: ElfProgramType::Null,
        flags: 4,
        offset: 0x0102_0304_0506_0708,
        virtual_addr: 1,
        physical_addr: 2,
        file_size: 3,
        memory_size: 4,
        align: 4,
    });
    let mut expected: Vec<u8> = vec![0, 0, 0, 0, 4, 0, 0, 0, 8, 7, 6, 5, 4, 3, 2, 1];
    for v in [1u64, 2, 3, 4, 4] {
        expected.extend_from_slice(&v.to_le_bytes());
    }
    assert_eq!(h.as_bytes(), expected);
    assert_eq!(h.as_bytes().len(), 56);
}

#[test]
fn section_header_of_the_32_bit_class() {
    let h = ElfSectionHeader::Elf32(Elf32SectionHeader {
        name: 13,
        section_type: ElfSectionType::SymbolTable,
        flags: 1,
        addr: 2,
        offset: 0x0a0b_0c0d,
        size: 4,
        link: 5,
        info: 6,
        addr_align: 7,
        entry_size: 8,
    });
    let mut expected: Vec<u8> = Vec::new();
    for v in [13u32, 2, 1, 2, 0x0a0b_0c0d, 4, 5, 6, 7, 8] {
        expected.extend_from_slice(&v.to_le_bytes());
    }
    assert_eq!(h.as_bytes(), expected);
    assert_eq!(h.as_bytes().len(), 40);
}

#[test]
fn section_header_of_the_64_bit_class() {
    let h = ElfSectionHeader::Elf64(Elf64SectionHeader {
        name: 21,
        section_type: ElfSectionType::SymbolStringTable,
        flags: 1,
        addr: 2,
        offset: 3,
        size: 4,
        link: 5,
        info: 6,
        addr_align: 7,
        entry_size: 8,
    });
    let mut expected: Vec<u8> = Vec::new();
    expected.extend_from_slice(&21u32.to_le_bytes());
    expected.extend_from_slice(&3u32.to_le_bytes());
    for v in [1u64, 2, 3, 4] {
        expected.extend_from_slice(&v.to_le_bytes());
    }
    expected.extend_from_slice(&5u32.to_le_bytes());
    expected.extend_from_slice(&6u32.to_le_bytes());
    for v in [7u64, 8] {
        expected.extend_from_slice(&v.to_le_bytes());
    }
    assert_eq!(h.as_bytes(), expected);
    assert_eq!(h.as_bytes().len(), 64);
}

#[test]
fn symbol_entry_of_the_32_bit_class() {
    let e = ElfSymbolTableEntry::Elf32(Elf32SymbolTableEntry {
        name_offset: 0x0102_0304,
        value: 0x1112_1314,
        size: 0x2122_2324,
        info: 2,
        other: 9,
        section_index: 0x0a0b,
    });
    assert_eq!(
        e.as_bytes(),
        vec![4, 3, 2, 1, 0x14, 0x13, 0x12, 0x11, 0x24, 0x23, 0x22, 0x21, 2, 9, 0x0b, 0x0a]
    );
}

#[test]
fn symbol_entry_of_the_64_bit_class() {
    let e = ElfSymbolTableEntry::Elf64(Elf64SymbolTableEntry {
        name_offset: 0x0102_0304,
        info: 2,
        other: 9,
        section_index: 0x0a0b,
        value: 0x1112_1314_1516_1718,
        size: 0x20,
    });
    assert_eq!(
        e.as_bytes(),
        vec![
            4, 3, 2, 1, 2, 9, 0x0b, 0x0a, 0x18, 0x17, 0x16, 0x15, 0x14, 0x13, 0x12, 0x11, 0x20,
            0, 0, 0, 0, 0, 0, 0
        ]
    );
}
