use ext_va_list::overflow_area::OverflowArea;

#[test]
fn new_keeps_base_and_length() {
    let bytes = [1u8, 2, 3, 4, 5];
    let area = OverflowArea::new(0x1000, &bytes).unwrap();
    assert_eq!(area.base(), 0x1000);
    assert_eq!(area.len(), 5);
}

#[test]
fn new_accepts_area_that_ends_at_top_of_address_space() {
    let bytes = [0u8; 16];
    let area = OverflowArea::new(u64::MAX - 16, &bytes);
    assert!(area.is_some());
    assert_eq!(area.unwrap().base(), u64::MAX - 16);
}

#[test]
fn new_refuses_area_beyond_address_space() {
    let bytes = [0u8; 16];
    assert!(OverflowArea::new(u64::MAX - 15, &bytes).is_none());
    assert!(OverflowArea::new(u64::MAX, &bytes).is_none());
}

#[test]
fn new_accepts_empty_area_anywhere() {
    let bytes: [u8; 0] = [];
    assert!(OverflowArea::new(0, &bytes).is_some());
    assert!(OverflowArea::new(u64::MAX, &bytes).is_some());
}

#[test]
fn holds_inside_and_at_the_edges() {
    let bytes = [0u8; 32];
    let area = OverflowArea::new(100, &bytes).unwrap();
    assert!(area.holds(100, 32));
    assert!(area.holds(100, 0));
    assert!(area.holds(116, 16));
    assert!(area.holds(131, 1));
    assert!(area.holds(132, 0));
}

#[test]
fn holds_refuses_what_sticks_out() {
    let bytes = [0u8; 32];
    let area = OverflowArea::new(100, &bytes).unwrap();
    assert!(!area.holds(99, 1));
    assert!(!area.holds(99, 0));
    assert!(!area.holds(100, 33));
    assert!(!area.holds(117, 16));
    assert!(!area.holds(132, 1));
    assert!(!area.holds(133, 0));
    assert!(!area.holds(0, 16));
    assert!(!area.holds(u64::MAX, 16));
    assert!(!area.holds(110, usize::MAX));
}

#[test]
fn read_16_returns_the_bytes_at_the_address() {
    let bytes: Vec<u8> = (0u8..48).collect();
    let area = OverflowArea::new(0x7000, &bytes).unwrap();
    assert_eq!(
        area.read_16(0x7000),
        [0, 1, 2, 3, 4, 5, 6, 7, 8, 9, 10, 11, 12, 13, 14, 15]
    );
    assert_eq!(
        area.read_16(0x7005),
        [5, 6, 7, 8, 9, 10, 11, 12, 13, 14, 15, 16, 17, 18, 19, 20]
    );
    assert_eq!(
        area.read_16(0x7020),
        [32, 33, 34, 35, 36, 37, 38, 39, 40, 41, 42, 43, 44, 45, 46, 47]
    );
}

#[test]
fn area_is_shared_by_copy() {
    let bytes = [9u8; 16];
    let area = OverflowArea::new(64, &bytes).unwrap();
    let other = area;
    assert_eq!(area.base(), other.base());
    assert_eq!(area.len(), other.len());
    assert_eq!(area.read_16(64), other.read_16(64));
}
