use ext_va_list::little_endian::{push_le, read_le};

#[test]
fn read_le_four_bytes() {
    let bytes = [0x78u8, 0x56, 0x34, 0x12];
    assert_eq!(read_le(&bytes, 0, 4), 0x1234_5678);
}

#[test]
fn read_le_eight_bytes() {
    let bytes = [0xefu8, 0xcd, 0xab, 0x89, 0x67, 0x45, 0x23, 0x01];
    assert_eq!(read_le(&bytes, 0, 8), 0x0123_4567_89ab_cdef);
}

#[test]
fn read_le_largest_value() {
    let bytes = [0xffu8; 8];
    assert_eq!(read_le(&bytes, 0, 8), u64::MAX);
}

#[test]
fn read_le_starts_at_offset() {
    let bytes = [0xaau8, 0xbb, 0x01, 0x02, 0xcc];
    assert_eq!(read_le(&bytes, 2, 2), 0x0201);
}

#[test]
fn read_le_of_no_bytes_is_zero() {
    let bytes = [0x11u8, 0x22];
    assert_eq!(read_le(&bytes, 1, 0), 0);
    assert_eq!(read_le(&bytes, 2, 0), 0);
}

#[test]
fn read_le_single_byte() {
    let bytes = [0x11u8, 0x22, 0x33];
    assert_eq!(read_le(&bytes, 1, 1), 0x22);
}

#[test]
fn push_le_least_significant_first() {
    let mut out = Vec::new();
    push_le(&mut out, 0x0102, 2);
    assert_eq!(out, vec![0x02u8, 0x01]);
}

#[test]
fn push_le_appends() {
    let mut out = vec![0xaau8];
    push_le(&mut out, 0x1234_5678, 4);
    assert_eq!(out, vec![0xaau8, 0x78, 0x56, 0x34, 0x12]);
}

#[test]
fn push_le_keeps_low_bytes_only() {
    let mut out = Vec::new();
    push_le(&mut out, 0x1234, 1);
    assert_eq!(out, vec![0x34u8]);
}

#[test]
fn push_le_pads_with_zeros() {
    let mut out = Vec::new();
    push_le(&mut out, 0x01, 3);
    assert_eq!(out, vec![0x01u8, 0x00, 0x00]);
}

#[test]
fn push_le_zero_width_changes_nothing() {
    let mut out = vec![7u8, 8];
    push_le(&mut out, 0xffff, 0);
    assert_eq!(out, vec![7u8, 8]);
}

#[test]
fn push_le_then_read_le() {
    let values = [0u64, 1, 255, 256, 0xdead_beef, u64::MAX, 0x8000_0000_0000_0000];
    for value in values {
        let mut out = Vec::new();
        push_le(&mut out, value, 8);
        assert_eq!(out.len(), 8);
        assert_eq!(read_le(&out, 0, 8), value);
    }
}
