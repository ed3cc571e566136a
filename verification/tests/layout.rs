use aout2elf::layout::{align_4k, Layout};
use aout2elf::target::MachineTarget;

#[test]
fn align_4k_rounds_up_to_the_page() {
    assert_eq!(align_4k(0), 0);
    assert_eq!(align_4k(1), 4096);
    assert_eq!(align_4k(4095), 4096);
    assert_eq!(align_4k(4096), 4096);
    assert_eq!(align_4k(4097), 8192);
    assert_eq!(align_4k(0x0020_0028), 0x0020_1000);
    assert_eq!(align_4k(0xffff_f000), 0xffff_f000);
    assert_eq!(align_4k(0xffff_e001), 0xffff_f000);
}

#[test]
fn plan_for_the_32_bit_class() {
    let l = Layout::plan(MachineTarget::Amd64, 0x20, 0x10, 0x30, 0x1234);
    assert_eq!(l.header_size, 52);
    assert_eq!(l.program_header_size, 32);
    assert_eq!(l.section_header_size, 40);
    assert_eq!(l.symbol_entry_size, 16);
    assert_eq!(l.program_header_count, 3);
    assert_eq!(l.section_header_count, 6);
    assert_eq!(l.pad_size, 12);
    assert_eq!(l.main_offset, 400);
    assert_eq!(l.text_offset, 400);
    assert_eq!(l.data_offset, 400 + 0x20);
    assert_eq!(l.retained_symbol_table_offset, 400 + 0x30);
    assert_eq!(l.symbol_table_offset, 400 + 0x60);
    assert_eq!(l.text_addr, 0x8000_1234);
    assert_eq!(l.data_load_addr, 0x2000);
    assert_eq!(l.data_addr, 0x8000_2000);
    assert_eq!(
        (l.text_size, l.data_size, l.retained_symbol_table_size, l.entry),
        (0x20, 0x10, 0x30, 0x1234)
    );
}

#[test]
fn plan_for_the_64_bit_class() {
    let l = Layout::plan(MachineTarget::RiscV64, 0x1000, 0x200, 0, 0x8020_0000);
    assert_eq!(l.header_size, 64);
    assert_eq!(l.program_header_size, 56);
    assert_eq!(l.section_header_size, 64);
    assert_eq!(l.symbol_entry_size, 24);
    assert_eq!(l.main_offset, 628);
    assert_eq!(l.data_offset, 628 + 0x1000);
    assert_eq!(l.retained_symbol_table_offset, 628 + 0x1200);
    assert_eq!(l.symbol_table_offset, 628 + 0x1200);
    assert_eq!(l.text_addr, 0x8020_0000);
    assert_eq!(l.data_load_addr, 0x8020_0000);
    assert_eq!(l.data_addr, 0x8020_0000);
}

#[test]
fn plan_with_the_largest_sizes() {
    let l = Layout::plan(MachineTarget::RiscV64, u32::MAX, u32::MAX, u32::MAX, u32::MAX);
    assert_eq!(l.symbol_table_offset, 628 + 3 * 0xffff_ffffu64);
    assert_eq!(l.data_load_addr, 0x1_0000_0000);
    assert!(l.fits(1, 1));
    assert!(l.fits(0xffff_ffff, 0xffff_ffff));
    assert!(!l.fits(0x1_0000_0000, 1));
    assert!(!l.fits(1, 0x1_0000_0000));
}

#[test]
fn the_32_bit_class_holds_only_32_bit_values() {
    let l = Layout::plan(MachineTarget::Amd64, 0x20, 0x10, 0x30, 0x1234);
    assert!(l.fits(1, 1));
    // the section name table would start at 400 + 0x60 + 16 + n
    assert!(l.fits(1, 0xffff_ffff - 400 - 0x60 - 16));
    assert!(!l.fits(1, 0xffff_ffff - 400 - 0x60 - 16 + 1));
    // the text would be loaded above the 32-bit range
    assert!(!Layout::plan(MachineTarget::Amd64, 0, 0, 0, 0x8000_0000).fits(1, 1));
    assert!(Layout::plan(MachineTarget::Amd64, 0, 0, 0, 0x7fff_f000).fits(1, 1));
    // the data would be loaded above the 32-bit range
    assert!(!Layout::plan(MachineTarget::Amd64, 0, 0, 0, 0x7fff_f001).fits(1, 1));
}
