use primordial::Offset;
use primordial::One;
use primordial::Zero;

#[test]
fn from_items_round_trip() {
    assert_eq!(Offset::<usize, u64>::from_items(0).items(), 0);
    assert_eq!(Offset::<usize, u64>::from_items(7).items(), 7);
    assert_eq!(Offset::<usize, u64>::from_items(usize::MAX).items(), usize::MAX);
    assert_eq!(Offset::<u64, u8>::from_items(42).items(), 42);
    assert_eq!(Offset::<u32, ()>::from_items(13).items(), 13);
}

#[test]
fn bytes_scales_by_item_size() {
    assert_eq!(Offset::<usize, u64>::from_items(3).bytes(), 24);
    assert_eq!(Offset::<usize, u32>::from_items(3).bytes(), 12);
    assert_eq!(Offset::<usize, u8>::from_items(3).bytes(), 3);
    assert_eq!(Offset::<usize, ()>::from_items(3).bytes(), 0);
    assert_eq!(Offset::<u64, u16>::from_items(5).bytes(), 10);
}

#[test]
fn arithmetic_is_component_wise() {
    let a = Offset::<usize, u64>::from_items(10);
    let b = Offset::<usize, u64>::from_items(3);
    assert_eq!((a + b).items(), 13);
    assert_eq!((a - b).items(), 7);
    assert_eq!((a * b).items(), 30);
    assert_eq!((a / b).items(), 3);
    assert_eq!((a % b).items(), 1);
}

#[test]
fn narrow_arithmetic_is_component_wise() {
    let a = Offset::<u32, u8>::from_items(10);
    let b = Offset::<u32, u8>::from_items(4);
    assert_eq!((a + b).items(), 14);
    assert_eq!((a - b).items(), 6);
    assert_eq!((a * b).items(), 40);
    assert_eq!((a / b).items(), 2);
    assert_eq!((a % b).items(), 2);
}

#[test]
fn assigning_arithmetic() {
    let mut a = Offset::<usize, u32>::from_items(10);
    a.add_assign(Offset::from_items(5));
    assert_eq!(a.items(), 15);
    a.sub_assign(Offset::from_items(3));
    assert_eq!(a.items(), 12);
    a.mul_assign(Offset::from_items(2));
    assert_eq!(a.items(), 24);
    a.div_assign(Offset::from_items(7));
    assert_eq!(a.items(), 3);
    a.rem_assign(Offset::from_items(2));
    assert_eq!(a.items(), 1);
}

#[test]
fn widening_offset_conversions_preserve_count() {
    let narrow: Offset<u32, u64> = Offset::from_items(9);
    let native: Offset<usize, u64> = narrow.into();
    assert_eq!(native.items(), 9);

    let native: Offset<usize, u64> = Offset::from_items(11);
    let wide: Offset<u64, u64> = native.into();
    assert_eq!(wide.items(), 11);

    let wide: Offset<u64, u64> = Offset::from_items(500);
    let native: Offset<usize, u64> = wide.into();
    assert_eq!(native.items(), 500);
}

#[test]
fn compare_offsets() {
    let a = Offset::<usize, u64>::from_items(1);
    let b = Offset::<usize, u64>::from_items(2);
    let c = Offset::<usize, u64>::from_items(2);
    assert!(b == c);
    assert!(a != b);
    assert!(a < b);
}

#[test]
fn identities() {
    assert_eq!(<u32 as Zero>::zero(), 0);
    assert_eq!(<u32 as One>::one(), 1);
    assert_eq!(<i64 as Zero>::zero(), 0);
    assert_eq!(<i64 as One>::one(), 1);
    assert_eq!(<usize as Zero>::zero(), 0);
    assert_eq!(<usize as One>::one(), 1);
    let z: Offset<usize, u64> = Zero::zero();
    assert_eq!(z.items(), 0);
    let o: Offset<usize, u64> = One::one();
    assert_eq!(o.items(), 1);
}
