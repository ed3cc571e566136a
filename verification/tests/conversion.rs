use aout2elf::convert::aout_to_elf;
use aout2elf::error::ConvertError;

const AMD64: [u8; 4] = [0x00, 0x00, 0x8a, 0x97];
const RISCV64: [u8; 4] = [0x00, 0x00, 0x8e, 0x17];
const SECTION_NAMES: &[u8] = b"\0.text\0.data\0.symtab\0.strtab\0.shstrtab\0";

fn header(magic: [u8; 4], text: u32, data: u32, syms: u32, entry: u32) -> Vec<u8> {
    let mut d = Vec::new();
    d.extend_from_slice(&magic);
    for v in [text, data, 0, syms, entry, 0, 0] {
        d.extend_from_slice(&v.to_be_bytes());
    }
    d.extend_from_slice(&[0u8; 8]);
    d
}

fn record(value: u32, kind: u8, name: &[u8]) -> Vec<u8> {
    let mut r = vec![0u8; 4];
    r.extend_from_slice(&value.to_be_bytes());
    r.push(kind);
    r.extend_from_slice(name);
    r.push(0);
    r
}

fn image_of(magic: [u8; 4], text: &[u8], data: &[u8], symbols: &[u8], entry: u32) -> Vec<u8> {
    let mut d = header(magic, text.len() as u32, data.len() as u32, symbols.len() as u32, entry);
    d.extend_from_slice(text);
    d.extend_from_slice(data);
    d.extend_from_slice(symbols);
    d
}

fn word32(image: &[u8], at: usize) -> u64 {
    u32::from_le_bytes([image[at], image[at + 1], image[at + 2], image[at + 3]]) as u64
}

fn word64(image: &[u8], at: usize) -> u64 {
    let mut b = [0u8; 8];
    b.copy_from_slice(&image[at..at + 8]);
    u64::from_le_bytes(b)
}

fn is_wide(image: &[u8]) -> bool {
    image[4] == 2
}

// (offset, size) of each of the six sections, read back from the image
fn sections(image: &[u8]) -> Vec<(u64, u64)> {
    (0..6)
        .map(|i| {
            if is_wide(image) {
                let at = 64 + 3 * 56 + i * 64;
                (word64(image, at + 24), word64(image, at + 32))
            } else {
                let at = 52 + 3 * 32 + i * 40;
                (word32(image, at + 16), word32(image, at + 20))
            }
        })
        .collect()
}

// (offset, file size) of each of the three segments, read back from the image
fn segments(image: &[u8]) -> Vec<(u64, u64)> {
    (0..3)
        .map(|i| {
            if is_wide(image) {
                let at = 64 + i * 56;
                (word64(image, at + 8), word64(image, at + 32))
            } else {
                let at = 52 + i * 32;
                (word32(image, at + 4), word32(image, at + 16))
            }
        })
        .collect()
}

fn section<'a>(image: &'a [u8], i: usize) -> &'a [u8] {
    let (offset, size) = sections(image)[i];
    &image[offset as usize..(offset + size) as usize]
}

#[test]
fn unknown_magic_is_unsupported_architecture() {
    let d = header([1, 2, 3, 4], 0, 0, 0, 0);
    assert_eq!(aout_to_elf(&d), Err(ConvertError::UnsupportedArchitecture(0x0403_0201)));
    let big_endian_reading = header([0x97, 0x8a, 0x00, 0x00], 0, 0, 0, 0);
    assert_eq!(
        aout_to_elf(&big_endian_reading),
        Err(ConvertError::UnsupportedArchitecture(0x0000_8a97))
    );
}

#[test]
fn single_text_symbol_gives_only_the_reserved_entry() {
    let mut symbols = record(0, b'T', b"main");
    symbols.extend_from_slice(&record(0x1000, b'D', b"bulkdata"));
    assert_eq!(symbols.len(), 0x20);
    let d = image_of(AMD64, &[0u8; 0x20], &[0u8; 0x10], &symbols, 0);
    let image = aout_to_elf(&d).unwrap();
    assert_eq!(&image[0..4], &[0x7f, 0x45, 0x4c, 0x46]);
    assert_eq!(image[4], 1);
    assert_eq!(&image[18..20], &[0x3e, 0x00]);
    assert_eq!(section(&image, 3), &[0u8; 16]);
    assert_eq!(section(&image, 4), &[0u8]);
    assert_eq!(image.len(), 400 + 0x50 + 16 + 1 + 39);
}

#[test]
fn two_text_symbols_are_converted_to_one_function_symbol() {
    let mut symbols = record(0x0, b'T', b"start");
    symbols.extend_from_slice(&record(0x10, b'T', b"next"));
    let d = image_of(AMD64, &[0x90; 0x20], &[], &symbols, 0);
    let image = aout_to_elf(&d).unwrap();
    let table = section(&image, 3);
    assert_eq!(table.len(), 32);
    assert_eq!(&table[0..16], &[0u8; 16]);
    assert_eq!(&table[16..32], &[1, 0, 0, 0, 0, 0, 0, 0, 0x10, 0, 0, 0, 2, 0, 1, 0]);
    assert_eq!(section(&image, 4), b"\0start\0");
}

#[test]
fn no_symbol_records_give_the_reserved_entry_and_one_zero_byte() {
    let d = image_of(RISCV64, &[1, 2, 3, 4], &[5, 6], &[], 0x8020_0000);
    let image = aout_to_elf(&d).unwrap();
    assert_eq!(section(&image, 3), &[0u8; 24]);
    assert_eq!(section(&image, 4), &[0u8]);
    assert_eq!(sections(&image)[4].1, 1);
}

#[test]
fn conversion_is_deterministic() {
    let mut symbols = record(0x20, b'T', b"b");
    symbols.extend_from_slice(&record(0x0, b't', b"a"));
    symbols.extend_from_slice(&record(0x40, b'T', b"c"));
    let d = image_of(RISCV64, &[7; 0x40], &[9; 0x10], &symbols, 0x1000);
    let first = aout_to_elf(&d);
    let second = aout_to_elf(&d.clone());
    assert!(first.is_ok());
    assert_eq!(first, second);
    let short = [0u8; 3];
    assert_eq!(aout_to_elf(&short), aout_to_elf(&short));
}

#[test]
fn segments_keep_their_sizes() {
    for magic in [AMD64, RISCV64] {
        let d = image_of(magic, &[1; 0x123], &[2; 0x45], &record(0, b'T', b"f"), 0x2000);
        let image = aout_to_elf(&d).unwrap();
        let segments = segments(&image);
        assert_eq!(segments[0].1, 0x123);
        assert_eq!(segments[1].1, 0x45);
        assert_eq!(segments[2].1, 11);
        let start = if is_wide(&image) { 628 } else { 400 };
        assert_eq!(segments[0].0, start);
        assert_eq!(segments[1].0, start + 0x123);
        assert_eq!(segments[2].0, start + 0x123 + 0x45);
    }
}

#[test]
fn sections_follow_one_another() {
    let mut symbols = record(0x0, b'T', b"alpha");
    symbols.extend_from_slice(&record(0x8, b'T', b"beta"));
    symbols.extend_from_slice(&record(0x10, b'T', b"gamma"));
    for magic in [AMD64, RISCV64] {
        let d = image_of(magic, &[1; 0x18], &[2; 0x8], &symbols, 0);
        let image = aout_to_elf(&d).unwrap();
        let sections = sections(&image);
        for i in 0..5 {
            assert!(sections[i].0 < sections[i + 1].0);
            assert!(sections[i].0 + sections[i].1 <= sections[i + 1].0);
        }
        assert_eq!(sections[5].0 + sections[5].1, image.len() as u64);
        assert_eq!(sections[0], (0, 0));
    }
}

#[test]
fn empty_text_makes_two_sections_start_together() {
    let d = image_of(AMD64, &[], &[2; 0x8], &[], 0);
    let image = aout_to_elf(&d).unwrap();
    let sections = sections(&image);
    assert_eq!(sections[1], (400, 0));
    assert_eq!(sections[2], (400, 8));
    assert_eq!(sections[3], (408, 16));
}

#[test]
fn sections_hold_what_they_are_named_for() {
    let text: Vec<u8> = (0..0x30).collect();
    let data: Vec<u8> = (0x80..0x90).collect();
    let mut symbols = record(0x20, b'T', b"second");
    symbols.extend_from_slice(&record(0x0, b'T', b"first"));
    symbols.extend_from_slice(&record(0x100, b'd', b"value"));
    for magic in [AMD64, RISCV64] {
        let d = image_of(magic, &text, &data, &symbols, 0x20_0000);
        let image = aout_to_elf(&d).unwrap();
        assert_eq!(section(&image, 1), &text[..]);
        assert_eq!(section(&image, 2), &data[..]);
        assert_eq!(section(&image, 4), b"\0first\0");
        assert_eq!(section(&image, 5), SECTION_NAMES);
        let segments = segments(&image);
        let kept = &image[segments[2].0 as usize..(segments[2].0 + segments[2].1) as usize];
        assert_eq!(kept, &symbols[..]);
        let entry_size = if is_wide(&image) { 24 } else { 16 };
        assert_eq!(section(&image, 3).len(), 2 * entry_size);
    }
}

#[test]
fn riscv_image_is_of_the_64_bit_class() {
    let mut symbols = record(0x8020_0000, b'T', b"_start");
    symbols.extend_from_slice(&record(0x8020_0040, b'T', b"main"));
    let d = image_of(RISCV64, &[0x13; 0x80], &[0xaa; 0x20], &symbols, 0x8020_0000);
    let image = aout_to_elf(&d).unwrap();
    assert_eq!(&image[0..6], &[0x7f, 0x45, 0x4c, 0x46, 2, 1]);
    assert_eq!(&image[16..20], &[2, 0, 0xf3, 0]);
    assert_eq!(word64(&image, 24), 0x8020_0000);
    assert_eq!(word64(&image, 32), 64);
    assert_eq!(word64(&image, 40), 64 + 3 * 56);
    // text segment: flags, offset, virtual and physical address
    assert_eq!(word32(&image, 64), 1);
    assert_eq!(word32(&image, 68), 5);
    assert_eq!(word64(&image, 72), 628);
    assert_eq!(word64(&image, 80), 0x8020_0000);
    assert_eq!(word64(&image, 88), 0x8020_0000);
    // data segment: loaded at the entry point rounded up to a page
    assert_eq!(word64(&image, 64 + 56 + 16), 0x8020_0000);
    let table = section(&image, 3);
    assert_eq!(table.len(), 48);
    assert_eq!(word32(table, 24), 1);
    assert_eq!(&table[28..32], &[2, 0, 1, 0]);
    assert_eq!(word64(table, 32), 0x8020_0000);
    assert_eq!(word64(table, 40), 0x40);
    assert_eq!(section(&image, 4), b"\0_start\0");
    assert_eq!(image.len(), 628 + 0x80 + 0x20 + symbols.len() + 48 + 8 + 39);
}

#[test]
fn amd64_image_is_laid_out_byte_for_byte() {
    let d = image_of(AMD64, &[0xc3], &[0x2a], &[], 0x1001);
    let image = aout_to_elf(&d).unwrap();
    let mut expected: Vec<u8> = vec![
        0x7f, 0x45, 0x4c, 0x46, 1, 1, 1, 0, 0, 0, 0, 0, 0, 0, 0, 0, 2, 0, 0x3e, 0, 1, 0, 0, 0,
        0x01, 0x10, 0, 0, 52, 0, 0, 0, 148, 0, 0, 0, 0, 0, 0, 0, 52, 0, 32, 0, 3, 0, 40, 0, 6, 0,
        5, 0,
    ];
    let words: [u32; 24 + 60] = [
        // program headers
        1, 400, 0x8000_1001, 0x1001, 1, 1, 5, 4096, //
        1, 401, 0x8000_2000, 0x2000, 1, 1, 6, 4096, //
        0, 402, 0, 0, 0, 0, 4, 4, //
        // section headers
        0, 0, 0, 0, 0, 0, 0, 0, 0, 0, //
        1, 1, 6, 0x8000_1001, 400, 1, 1, 0, 64, 0, //
        7, 1, 3, 0x8000_2000, 401, 1, 1, 0, 32, 0, //
        13, 2, 0, 0, 402, 16, 4, 1, 8, 16, //
        21, 3, 0, 0, 418, 1, 0, 0, 1, 0, //
        29, 3, 0, 0, 419, 39, 0, 0, 1, 0,
    ];
    for w in words {
        expected.extend_from_slice(&w.to_le_bytes());
    }
    expected.extend_from_slice(&[0u8; 12]);
    expected.extend_from_slice(&[0xc3, 0x2a]);
    expected.extend_from_slice(&[0u8; 16]);
    expected.push(0);
    expected.extend_from_slice(SECTION_NAMES);
    assert_eq!(image, expected);
}

#[test]
fn bytes_behind_the_symbol_table_are_not_carried() {
    let mut d = image_of(AMD64, &[1; 4], &[2; 4], &record(0, b'T', b"f"), 0);
    let plain = aout_to_elf(&d).unwrap();
    d.extend_from_slice(&[0xee; 100]);
    assert_eq!(aout_to_elf(&d).unwrap(), plain);
}

#[test]
fn short_input_is_a_format_error() {
    assert_eq!(aout_to_elf(&[]), Err(ConvertError::FormatError));
    assert_eq!(aout_to_elf(&[0u8; 31]), Err(ConvertError::FormatError));
    let mut d = header(AMD64, 0, 0, 0, 0);
    d.truncate(31);
    assert_eq!(aout_to_elf(&d), Err(ConvertError::FormatError));
}

#[test]
fn missing_segment_bytes_are_truncated_input() {
    let mut d = image_of(AMD64, &[1; 0x20], &[2; 0x10], &record(0, b'T', b"f"), 0);
    d.pop();
    assert_eq!(aout_to_elf(&d), Err(ConvertError::TruncatedInput));
    let mut only_header = header(AMD64, 0, 0, 0, 0);
    only_header.truncate(39);
    assert_eq!(aout_to_elf(&only_header), Err(ConvertError::TruncatedInput));
    assert_eq!(
        aout_to_elf(&header(RISCV64, u32::MAX, u32::MAX, u32::MAX, 0)),
        Err(ConvertError::TruncatedInput)
    );
    assert!(aout_to_elf(&header(AMD64, 0, 0, 0, 0)).is_ok());
}

#[test]
fn broken_symbol_record_is_a_symbol_parse_error() {
    let mut unterminated = record(0, b'T', b"main");
    unterminated.pop();
    let d = image_of(AMD64, &[1; 4], &[], &unterminated, 0);
    assert_eq!(aout_to_elf(&d), Err(ConvertError::SymbolParseError));
    let d = image_of(AMD64, &[1; 4], &[], &[0u8; 5], 0);
    assert_eq!(aout_to_elf(&d), Err(ConvertError::SymbolParseError));
    let mut long = vec![0u8; 9];
    long.extend_from_slice(&[b'n'; 200]);
    long.push(0);
    let d = image_of(RISCV64, &[], &[], &long, 0);
    assert_eq!(aout_to_elf(&d), Err(ConvertError::SymbolParseError));
}

#[test]
fn addresses_beyond_the_class_are_a_format_error() {
    let d = image_of(AMD64, &[1; 4], &[], &[], 0x8000_0000);
    assert_eq!(aout_to_elf(&d), Err(ConvertError::FormatError));
    let d = image_of(AMD64, &[1; 4], &[], &[], 0x7fff_f001);
    assert_eq!(aout_to_elf(&d), Err(ConvertError::FormatError));
    let d = image_of(AMD64, &[1; 4], &[], &[], 0x7fff_f000);
    assert!(aout_to_elf(&d).is_ok());
    let d = image_of(RISCV64, &[1; 4], &[], &[], 0xffff_ffff);
    let image = aout_to_elf(&d).unwrap();
    assert_eq!(word64(&image, 64 + 56 + 16), 0x1_0000_0000);
}

#[test]
fn errors_are_checked_in_order() {
    // unknown magic wins over missing bytes
    let mut d = header([9, 9, 9, 9], 0x100, 0, 0, 0);
    d.truncate(32);
    assert_eq!(aout_to_elf(&d), Err(ConvertError::UnsupportedArchitecture(0x0909_0909)));
    // missing bytes win over an address that does not fit
    let d = header(AMD64, 1, 0, 0, 0x8000_0000);
    assert_eq!(aout_to_elf(&d), Err(ConvertError::TruncatedInput));
    // a broken record wins over an address that does not fit
    let d = image_of(AMD64, &[], &[], &[0u8; 3], 0x8000_0000);
    assert_eq!(aout_to_elf(&d), Err(ConvertError::SymbolParseError));
}
