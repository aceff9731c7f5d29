use const_index::{
    ConstGet, ConstRange, ConstRangeInclusive, ConstRangeTo, ConstRangeToInclusive, ConstUsize,
};

#[test]
fn it_works() {
    let bytes: Vec<u8> = (0..100).collect();
    let b: &[u8; 10] = bytes.cget(ConstRange::<0, 10, 10>::new()).unwrap();
    let c: &[u8; 10] = bytes.cget(ConstRangeInclusive::<0, 9, 10>::new()).unwrap();
    let d: &[u8; 10] = bytes.cget(ConstRangeTo::<10>::new()).unwrap();
    let e: &[u8; 10] = bytes.cget(ConstRangeToInclusive::<9, 10>::new()).unwrap();
    let f: &u8 = bytes.cget(ConstUsize::<0>::new()).unwrap();
    let (g, h): (&[u8; 10], &[u8]) = bytes.csplit_at(ConstUsize::<10>::new());

    assert_eq!(b, c);
    assert_eq!(b, d);
    assert_eq!(b, e);
    assert_eq!(&b[0], f);
    assert_eq!(b, g);
    assert_eq!(&bytes[10..], h);

    assert_eq!(b, bytes.cindex(ConstRange::<0, 10, 10>::new()));
    assert_eq!(c, bytes.cindex(ConstRangeInclusive::<0, 9, 10>::new()));
    assert_eq!(d, bytes.cindex(ConstRangeTo::<10>::new()));
    assert_eq!(e, bytes.cindex(ConstRangeToInclusive::<9, 10>::new()));
}
