use const_index::{
    ConstGet, ConstRange, ConstRangeInclusive, ConstRangeTo, ConstRangeToInclusive, ConstUsize,
};

fn bytes() -> Vec<u8> {
    (0..100).collect()
}

#[test]
fn four_shapes_give_the_same_ten_bytes() {
    let bytes = bytes();
    let want: [u8; 10] = [0, 1, 2, 3, 4, 5, 6, 7, 8, 9];
    assert_eq!(bytes.cget(ConstRange::<0, 10, 10>::new()), Some(&want));
    assert_eq!(bytes.cget(ConstRangeInclusive::<0, 9, 10>::new()), Some(&want));
    assert_eq!(bytes.cget(ConstRangeTo::<10>::new()), Some(&want));
    assert_eq!(bytes.cget(ConstRangeToInclusive::<9, 10>::new()), Some(&want));
}

#[test]
fn scalar_zero_is_first_of_range_output() {
    let bytes = bytes();
    let b = bytes.cget(ConstRange::<0, 10, 10>::new()).unwrap();
    assert_eq!(bytes.cget(ConstUsize::<0>::new()), Some(&b[0]));
}

#[test]
fn ranges_in_the_middle_give_the_sub_run_in_order() {
    let bytes = bytes();
    assert_eq!(bytes.cget(ConstRange::<40, 44, 4>::new()), Some(&[40, 41, 42, 43]));
    assert_eq!(bytes.cget(ConstRangeInclusive::<40, 44, 5>::new()), Some(&[40, 41, 42, 43, 44]));
    assert_eq!(bytes.cget(ConstUsize::<99>::new()), Some(&99));
}

#[test]
fn ranges_that_end_at_the_length_are_within_bounds() {
    let bytes = bytes();
    assert_eq!(bytes.cget(ConstRange::<97, 100, 3>::new()), Some(&[97, 98, 99]));
    assert_eq!(bytes.cget(ConstRangeInclusive::<97, 99, 3>::new()), Some(&[97, 98, 99]));
    let five = [1u8, 2, 3, 4, 5];
    assert_eq!(five.cget(ConstRangeTo::<5>::new()), Some(&five));
    assert_eq!(five.cget(ConstRangeToInclusive::<4, 5>::new()), Some(&five));
}

#[test]
fn empty_range_gives_empty_array() {
    let bytes = bytes();
    let empty: [u8; 0] = [];
    assert_eq!(bytes.cget(ConstRange::<7, 7, 0>::new()), Some(&empty));
    assert_eq!(bytes.cget(ConstRange::<100, 100, 0>::new()), Some(&empty));
    assert_eq!(bytes.cget(ConstRangeTo::<0>::new()), Some(&empty));
    let nothing: [u8; 0] = [];
    assert_eq!(nothing.cget(ConstRangeTo::<0>::new()), Some(&empty));
}

#[test]
fn length_five_rejects_max_six() {
    let five = [1u8, 2, 3, 4, 5];
    assert_eq!(five.cget(ConstRange::<0, 6, 6>::new()), None);
    assert_eq!(five.cget(ConstRange::<6, 6, 0>::new()), None);
    assert_eq!(five.cget(ConstRangeInclusive::<0, 6, 7>::new()), None);
    assert_eq!(five.cget(ConstRangeTo::<6>::new()), None);
    assert_eq!(five.cget(ConstRangeToInclusive::<6, 7>::new()), None);
}

#[test]
fn length_five_rejects_max_six_for_writing() {
    let mut five = [1u8, 2, 3, 4, 5];
    assert!(five.cget_mut(ConstRange::<0, 6, 6>::new()).is_none());
    assert!(five.cget_mut(ConstRangeInclusive::<0, 6, 7>::new()).is_none());
    assert!(five.cget_mut(ConstRangeTo::<6>::new()).is_none());
    assert!(five.cget_mut(ConstRangeToInclusive::<6, 7>::new()).is_none());
    assert_eq!(five, [1, 2, 3, 4, 5]);
}

#[test]
fn closed_shapes_need_the_element_at_max() {
    let five = [1u8, 2, 3, 4, 5];
    assert_eq!(five.cget(ConstRangeInclusive::<3, 5, 3>::new()), None);
    assert_eq!(five.cget(ConstRangeToInclusive::<5, 6>::new()), None);
    assert_eq!(five.cget(ConstRangeInclusive::<3, 4, 2>::new()), Some(&[4, 5]));
}

#[test]
fn scalar_at_or_behind_the_length_is_absent() {
    let mut five = [1u8, 2, 3, 4, 5];
    assert_eq!(five.cget(ConstUsize::<5>::new()), None);
    assert_eq!(five.cget(ConstUsize::<6>::new()), None);
    assert!(five.cget_mut(ConstUsize::<5>::new()).is_none());
    assert_eq!(five.cget(ConstUsize::<4>::new()), Some(&5));
    let mut nothing: [u8; 0] = [];
    assert_eq!(nothing.cget(ConstUsize::<0>::new()), None);
    assert!(nothing.cget_mut(ConstUsize::<0>::new()).is_none());
}

#[test]
fn index_agrees_with_get() {
    let bytes = bytes();
    assert_eq!(
        bytes.cget(ConstRange::<20, 25, 5>::new()).unwrap(),
        bytes.cindex(ConstRange::<20, 25, 5>::new())
    );
    assert_eq!(
        bytes.cget(ConstRangeInclusive::<20, 25, 6>::new()).unwrap(),
        bytes.cindex(ConstRangeInclusive::<20, 25, 6>::new())
    );
    assert_eq!(
        bytes.cget(ConstRangeTo::<25>::new()).unwrap(),
        bytes.cindex(ConstRangeTo::<25>::new())
    );
    assert_eq!(
        bytes.cget(ConstRangeToInclusive::<25, 26>::new()).unwrap(),
        bytes.cindex(ConstRangeToInclusive::<25, 26>::new())
    );
    assert_eq!(
        bytes.cget(ConstUsize::<25>::new()).unwrap(),
        bytes.cindex(ConstUsize::<25>::new())
    );
}

#[test]
fn unchecked_agrees_with_get_within_bounds() {
    let bytes = bytes();
    assert_eq!(bytes.cget_unchecked(ConstRange::<20, 25, 5>::new()), &[20, 21, 22, 23, 24]);
    assert_eq!(
        bytes.cget_unchecked(ConstRangeInclusive::<20, 25, 6>::new()),
        &[20, 21, 22, 23, 24, 25]
    );
    assert_eq!(bytes.cget_unchecked(ConstRangeTo::<3>::new()), &[0, 1, 2]);
    assert_eq!(bytes.cget_unchecked(ConstRangeToInclusive::<3, 4>::new()), &[0, 1, 2, 3]);
    assert_eq!(bytes.cget_unchecked(ConstUsize::<42>::new()), &42);
}
