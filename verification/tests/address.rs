use primordial::Address;
use primordial::Offset;

#[test]
fn align() {
    assert_eq!(Address::from(9usize).raise::<u64>().raw(), 16);
    assert_eq!(Address::from(9usize).lower::<u64>().raw(), 8);
    assert_eq!(Address::from(7usize).raise::<u32>().raw(), 8);
    assert_eq!(Address::from(7usize).lower::<u32>().raw(), 4);
}

#[test]
fn align_u64() {
    assert_eq!(Address::from(9u64).raise::<u64>().raw(), 16);
    assert_eq!(Address::from(9u64).lower::<u64>().raw(), 8);
    assert_eq!(Address::from(7u64).lower::<u32>().raw(), 4);
}

#[test]
fn align_of_already_aligned_is_identity() {
    assert_eq!(Address::from(16usize).raise::<u64>().raw(), 16);
    assert_eq!(Address::from(16usize).lower::<u64>().raw(), 16);
    assert_eq!(Address::from(0usize).raise::<u64>().raw(), 0);
    assert_eq!(Address::from(0usize).lower::<u64>().raw(), 0);
}

#[test]
fn new_returns_value_unchanged() {
    let a: Address<usize, u64> = Address::new(64);
    assert_eq!(a.raw(), 64);
    let b: Address<usize, ()> = Address::new(7);
    assert_eq!(b.raw(), 7);
    let c: Address<usize, u8> = Address::new(3);
    assert_eq!(c.raw(), 3);
}

#[test]
fn try_cast_checks_alignment() {
    let a = Address::from(8usize);
    match a.try_cast::<u64>() {
        Ok(c) => assert_eq!(c.raw(), 8),
        Err(_) => panic!("cast of an aligned value must succeed"),
    }
    assert!(Address::from(9usize).try_cast::<u64>().is_err());
    assert!(Address::from(9usize).try_cast::<u8>().is_ok());
}

#[test]
fn try_cast_checks_alignment_u64() {
    match Address::from(24u64).try_cast::<u64>() {
        Ok(c) => assert_eq!(c.raw(), 24),
        Err(_) => panic!("cast of an aligned value must succeed"),
    }
    assert!(Address::from(25u64).try_cast::<u64>().is_err());
}

#[test]
fn add_and_sub_offsets_u64() {
    let a: Address<u64, u32> = Address::from(32u64).raise::<u32>();
    let b = a + Offset::from_items(3u64);
    assert_eq!(b.raw(), 44);
    let c = b - Offset::from_items(2u64);
    assert_eq!(c.raw(), 36);
    let d: Offset<u64, u32> = c - a;
    assert_eq!(d.items(), 1);
}

#[test]
fn add_and_sub_offsets() {
    let a: Address<usize, u32> = Address::new(32);
    let b = a + Offset::from_items(3);
    assert_eq!(b.raw(), 44);
    let c = b - Offset::from_items(2);
    assert_eq!(c.raw(), 36);
}

#[test]
fn sub_addresses_gives_item_distance() {
    let a: Address<usize, u64> = Address::new(32);
    let b: Address<usize, u64> = Address::new(8);
    let d: Offset<usize, u64> = a - b;
    assert_eq!(d.items(), 3);
}

#[test]
fn sub_then_add_restores() {
    let a: Address<usize, u64> = Address::new(32);
    let b: Address<usize, u64> = Address::new(8);
    let restored = b + (a - b);
    assert!(restored == a);
    assert_eq!(restored.raw(), 32);
}

#[test]
fn add_assign_and_sub_assign() {
    let mut a: Address<usize, u16> = Address::new(10);
    a.add_assign(Offset::from_items(4));
    assert_eq!(a.raw(), 18);
    a.sub_assign(Offset::from_items(1));
    assert_eq!(a.raw(), 16);
}

#[test]
fn widening_conversions_preserve_value() {
    let narrow: Address<u32, ()> = Address::from(5u32);
    let native: Address<usize, ()> = narrow.into();
    assert_eq!(native.raw(), 5);

    let native: Address<usize, ()> = Address::from(900usize);
    let wide: Address<u64, ()> = native.into();
    assert_eq!(wide.raw(), 900);

    let wide: Address<u64, ()> = Address::from(77u64);
    let native: Address<usize, ()> = wide.into();
    assert_eq!(native.raw(), 77);
}

#[test]
fn compare_addresses() {
    let a = Address::from(2usize);
    let b = Address::from(3usize);
    let c = Address::from(3usize);
    assert!(b == c);
    assert!(a != b);
    assert!(a < b);
    assert!(b <= c);
}

#[test]
fn default_address_is_null() {
    let a: primordial::Address<usize, u64> = Default::default();
    assert_eq!(a.raw(), 0);
    let o: primordial::Offset<u64, u32> = Default::default();
    assert_eq!(o.items(), 0);
}

#[test]
fn from_raw_value_round_trip() {
    assert_eq!(Address::from(0usize).raw(), 0);
    assert_eq!(Address::from(usize::MAX).raw(), usize::MAX);
    assert_eq!(Address::from(123u64).raw(), 123);
}
