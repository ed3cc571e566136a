use aout2elf::wire::{be_u32, le_u32, put_bytes, put_le_u16, put_le_u32, put_le_u64};

#[test]
fn be_u32_reads_most_significant_byte_first() {
    let bytes = [0xaa, 0x12, 0x34, 0x56, 0x78, 0xbb];
    assert_eq!(be_u32(&bytes, 1), 0x1234_5678);
    assert_eq!(be_u32(&bytes, 0), 0xaa12_3456);
    assert_eq!(be_u32(&bytes, 2), 0x3456_78bb);
}

#[test]
fn le_u32_reads_least_significant_byte_first() {
    let bytes = [0xaa, 0x12, 0x34, 0x56, 0x78, 0xbb];
    assert_eq!(le_u32(&bytes, 1), 0x7856_3412);
    assert_eq!(le_u32(&[0x00, 0x00, 0x8a, 0x97], 0), 0x978a_0000);
}

#[test]
fn put_le_u16_appends_two_bytes() {
    let mut out = vec![0xee];
    put_le_u16(&mut out, 0x1234);
    assert_eq!(out, vec![0xee, 0x34, 0x12]);
}

#[test]
fn put_le_u32_appends_four_bytes() {
    let mut out = vec![0xee];
    put_le_u32(&mut out, 0x1234_5678);
    assert_eq!(out, vec![0xee, 0x78, 0x56, 0x34, 0x12]);
}

#[test]
fn put_le_u64_appends_eight_bytes() {
    let mut out = Vec::new();
    put_le_u64(&mut out, 0x0102_0304_0506_0708);
    assert_eq!(out, vec![0x08, 0x07, 0x06, 0x05, 0x04, 0x03, 0x02, 0x01]);
}

#[test]
fn put_le_extremes() {
    let mut out = Vec::new();
    put_le_u16(&mut out, u16::MAX);
    put_le_u32(&mut out, 0);
    put_le_u64(&mut out, u64::MAX);
    let mut expected = vec![0xff, 0xff, 0, 0, 0, 0];
    expected.extend_from_slice(&[0xff; 8]);
    assert_eq!(out, expected);
}

#[test]
fn put_bytes_appends_in_order() {
    let mut out = vec![1, 2];
    put_bytes(&mut out, &[3, 4, 5]);
    put_bytes(&mut out, &[]);
    assert_eq!(out, vec![1, 2, 3, 4, 5]);
}
