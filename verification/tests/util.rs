use plinth::util::BitMap32;

#[test]
fn bitmap32() {
    let mut occupancy = BitMap32::new();

    for i in 0..BitMap32::MAX_BITS {
        assert_eq!(occupancy.next_unset(), Some(i as u32));
    }

    assert_eq!(occupancy.next_unset(), None);

    occupancy.set(0, false);
    assert!(!occupancy.is_set(0));
    assert_eq!(occupancy.next_unset(), Some(0));

    occupancy.set(12, false);
    assert!(!occupancy.is_set(12));
    occupancy.set(12, true);
    assert!(occupancy.is_set(12));
}

#[test]
fn bitmap32_next_unset_takes_lowest_clear_flag() {
    let mut map = BitMap32::new();
    map.set(0, true);
    map.set(1, true);
    map.set(3, true);
    assert_eq!(map.next_unset(), Some(2));
    assert!(map.is_set(2));
    assert_eq!(map.next_unset(), Some(4));
    assert!(!map.is_set(5));
}

#[test]
fn bitmap32_set_leaves_other_flags() {
    let mut map = BitMap32::new();
    map.set(31, true);
    assert!(map.is_set(31));
    assert!(!map.is_set(30));
    map.set(31, false);
    assert!(!map.is_set(31));
    for i in 0..32 {
        assert!(!map.is_set(i));
    }
}
