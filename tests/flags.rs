use gcrypt::Flags;

#[test]
fn named_bits() {
    assert_eq!(Flags::NONE, 0);
    assert_eq!(Flags::SECURE, 1);
    assert_eq!(Flags::ENABLE_SYNC, 2);
    assert_eq!(Flags::CBC_CTS, 4);
    assert_eq!(Flags::CBC_MAC, 8);
}

#[test]
fn empty_and_all() {
    assert_eq!(Flags::empty().bits(), 0);
    assert!(Flags::empty().is_empty());
    assert_eq!(Flags::all().bits(), 0xf);
    assert!(!Flags::all().is_empty());
}

#[test]
fn from_bits_rejects_unknown_bits() {
    assert_eq!(Flags::from_bits(Flags::SECURE | Flags::CBC_CTS).map(|f| f.bits()), Some(5));
    assert_eq!(Flags::from_bits(0).map(|f| f.bits()), Some(0));
    assert_eq!(Flags::from_bits(0x10), None);
    assert_eq!(Flags::from_bits(0x8000_0001), None);
}

#[test]
fn from_bits_truncate_drops_unknown_bits() {
    assert_eq!(Flags::from_bits_truncate(0xff).bits(), 0xf);
    assert_eq!(Flags::from_bits_truncate(0x12).bits(), 2);
    assert_eq!(Flags::from_bits_truncate(u32::MAX).bits(), 0xf);
}

#[test]
fn union_and_intersection() {
    let a = Flags::from_bits_truncate(Flags::SECURE | Flags::ENABLE_SYNC);
    let b = Flags::from_bits_truncate(Flags::ENABLE_SYNC | Flags::CBC_MAC);
    assert_eq!(a.union(b).bits(), 0b1011);
    assert_eq!(a.intersection(b).bits(), 0b0010);
    assert_eq!(a.intersection(Flags::empty()).bits(), 0);
}

#[test]
fn contains_and_intersects() {
    let a = Flags::from_bits_truncate(Flags::SECURE | Flags::CBC_CTS);
    let secure = Flags::from_bits_truncate(Flags::SECURE);
    let mac = Flags::from_bits_truncate(Flags::CBC_MAC);
    assert!(a.contains(secure));
    assert!(a.contains(Flags::empty()));
    assert!(!a.contains(mac));
    assert!(!a.contains(Flags::all()));
    assert!(a.intersects(secure));
    assert!(!a.intersects(mac));
    assert!(!a.intersects(Flags::empty()));
}

#[test]
fn insert_and_remove() {
    let mut f = Flags::empty();
    f.insert(Flags::from_bits_truncate(Flags::CBC_MAC));
    assert_eq!(f.bits(), 8);
    f.insert(Flags::from_bits_truncate(Flags::SECURE | Flags::CBC_MAC));
    assert_eq!(f.bits(), 9);
    f.remove(Flags::from_bits_truncate(Flags::CBC_MAC | Flags::ENABLE_SYNC));
    assert_eq!(f.bits(), 1);
    f.remove(Flags::all());
    assert!(f.is_empty());
}
