use m3::heap::{init, HeapArea, HEAP_AREA_SIZE};

#[test]
fn heap_layout_example() {
    let h = init(0x1234, 0x10000, 0x1000);
    assert_eq!(h.begin, 0x1240);
    assert_eq!(h.end, 0x2000 + 0x10000 - HEAP_AREA_SIZE);
    let space = ((h.end - h.begin) / 64 * 64) as u64;
    assert_eq!(space, 0x10D80);
    assert_eq!(h.begin_area, HeapArea { next: space, prev: 0 });
    assert_eq!(h.end_area, HeapArea { next: 0, prev: space });
}

#[test]
fn heap_layout_aligned_end() {
    let h = init(0x3000, 0x4000, 0x1000);
    assert_eq!(h.begin, 0x3000);
    assert_eq!(h.end, 0x6FC0);
    assert_eq!(h.begin_area.next, 0x3FC0);
    assert_eq!(h.end_area.prev, 0x3FC0);
}

#[test]
fn heap_without_room_records_negative_space() {
    let h = init(0x2000, 0, 0x1000);
    assert_eq!(h.begin, 0x2000);
    assert_eq!(h.end, 0x1FC0);
    assert_eq!(h.begin_area.next, 0u64.wrapping_sub(64));
    assert_eq!(h.end_area.prev, 0xFFFF_FFFF_FFFF_FFC0);
}
