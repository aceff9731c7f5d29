use const_index::{
    ConstGet, ConstRange, ConstRangeInclusive, ConstRangeTo, ConstRangeToInclusive, ConstUsize,
};

fn bytes() -> Vec<u8> {
    (0..10).collect()
}

#[test]
fn writing_through_scalar_changes_one_element() {
    let mut v = bytes();
    *v.cget_mut(ConstUsize::<3>::new()).unwrap() = 30;
    assert_eq!(v, [0, 1, 2, 30, 4, 5, 6, 7, 8, 9]);
    *v.cindex_mut(ConstUsize::<0>::new()) = 100;
    *v.cget_unchecked_mut(ConstUsize::<9>::new()) = 90;
    assert_eq!(v, [100, 1, 2, 30, 4, 5, 6, 7, 8, 90]);
}

#[test]
fn writing_through_half_open_range_changes_only_the_range() {
    let mut v = bytes();
    let part: &mut [u8; 3] = v.cget_mut(ConstRange::<2, 5, 3>::new()).unwrap();
    assert_eq!(part, &[2, 3, 4]);
    *part = [20, 30, 40];
    assert_eq!(v, [0, 1, 20, 30, 40, 5, 6, 7, 8, 9]);
    v.cindex_mut(ConstRange::<2, 5, 3>::new())[0] = 21;
    v.cget_unchecked_mut(ConstRange::<2, 5, 3>::new())[2] = 41;
    assert_eq!(v, [0, 1, 21, 30, 41, 5, 6, 7, 8, 9]);
}

#[test]
fn writing_through_closed_range_changes_only_the_range() {
    let mut v = bytes();
    let part: &mut [u8; 3] = v.cget_mut(ConstRangeInclusive::<7, 9, 3>::new()).unwrap();
    assert_eq!(part, &[7, 8, 9]);
    *part = [70, 80, 90];
    assert_eq!(v, [0, 1, 2, 3, 4, 5, 6, 70, 80, 90]);
    v.cindex_mut(ConstRangeInclusive::<7, 9, 3>::new())[1] = 81;
    v.cget_unchecked_mut(ConstRangeInclusive::<7, 9, 3>::new())[2] = 91;
    assert_eq!(v, [0, 1, 2, 3, 4, 5, 6, 70, 81, 91]);
}

#[test]
fn writing_through_prefix_changes_only_the_prefix() {
    let mut v = bytes();
    let part: &mut [u8; 2] = v.cget_mut(ConstRangeTo::<2>::new()).unwrap();
    *part = [10, 11];
    assert_eq!(v, [10, 11, 2, 3, 4, 5, 6, 7, 8, 9]);
    v.cindex_mut(ConstRangeTo::<2>::new())[0] = 12;
    v.cget_unchecked_mut(ConstRangeTo::<2>::new())[1] = 13;
    assert_eq!(v, [12, 13, 2, 3, 4, 5, 6, 7, 8, 9]);
}

#[test]
fn writing_through_closed_prefix_changes_only_the_prefix() {
    let mut v = bytes();
    let part: &mut [u8; 3] = v.cget_mut(ConstRangeToInclusive::<2, 3>::new()).unwrap();
    *part = [10, 11, 12];
    assert_eq!(v, [10, 11, 12, 3, 4, 5, 6, 7, 8, 9]);
    v.cindex_mut(ConstRangeToInclusive::<2, 3>::new())[0] = 13;
    v.cget_unchecked_mut(ConstRangeToInclusive::<2, 3>::new())[2] = 14;
    assert_eq!(v, [13, 11, 14, 3, 4, 5, 6, 7, 8, 9]);
}
