use alga::subset::{SubsetOf, SupersetOf};

#[test]
fn inclusion_widens_without_loss() {
    assert_eq!(SubsetOf::<u16>::to_superset(&200u8), 200u16);
    assert_eq!(SubsetOf::<u64>::to_superset(&u32::MAX), 4294967295u64);
    assert_eq!(SubsetOf::<i64>::to_superset(&u32::MAX), 4294967295i64);
    assert_eq!(SubsetOf::<i16>::to_superset(&-128i8), -128i16);
    assert_eq!(SubsetOf::<i32>::to_superset(&255u8), 255i32);
    assert_eq!(SubsetOf::<u8>::to_superset(&7u8), 7u8);
    assert_eq!(SubsetOf::<usize>::to_superset(&65535u16), 65535usize);
    assert_eq!(SubsetOf::<i64>::to_superset(&-5isize), -5i64);
}

#[test]
fn from_superset_succeeds_on_the_subset_only() {
    assert_eq!(<u8 as SubsetOf<u16>>::from_superset(&200u16), Some(200u8));
    assert_eq!(<u8 as SubsetOf<u16>>::from_superset(&255u16), Some(255u8));
    assert_eq!(<u8 as SubsetOf<u16>>::from_superset(&256u16), None);
    assert_eq!(<u8 as SubsetOf<i16>>::from_superset(&-1i16), None);
    assert_eq!(<u8 as SubsetOf<i16>>::from_superset(&0i16), Some(0u8));
    assert_eq!(<i8 as SubsetOf<i16>>::from_superset(&-128i16), Some(-128i8));
    assert_eq!(<i8 as SubsetOf<i16>>::from_superset(&-129i16), None);
    assert_eq!(<i8 as SubsetOf<i16>>::from_superset(&128i16), None);
    assert_eq!(<u32 as SubsetOf<i64>>::from_superset(&4294967296i64), None);
    assert_eq!(<u32 as SubsetOf<i64>>::from_superset(&4294967295i64), Some(u32::MAX));
    assert_eq!(<u64 as SubsetOf<u64>>::from_superset(&u64::MAX), Some(u64::MAX));
    assert_eq!(<i32 as SubsetOf<i64>>::from_superset(&(i64::from(i32::MIN) - 1)), None);
}

#[test]
fn is_in_subset_is_the_range_of_the_subset() {
    assert!(<u8 as SubsetOf<u32>>::is_in_subset(&255u32));
    assert!(!<u8 as SubsetOf<u32>>::is_in_subset(&256u32));
    assert!(<u16 as SubsetOf<i32>>::is_in_subset(&65535i32));
    assert!(!<u16 as SubsetOf<i32>>::is_in_subset(&-1i32));
    assert!(<i16 as SubsetOf<i16>>::is_in_subset(&i16::MIN));
}

#[test]
fn unchecked_conversion_keeps_what_fits() {
    assert_eq!(<u8 as SubsetOf<u16>>::from_superset_unchecked(&77u16), 77u8);
    assert_eq!(<i16 as SubsetOf<i64>>::from_superset_unchecked(&-300i64), -300i16);
}

#[test]
fn superset_sees_its_subsets() {
    assert_eq!(SupersetOf::<u8>::to_subset(&200u16), Some(200u8));
    assert_eq!(SupersetOf::<u8>::to_subset(&300u16), None);
    assert!(SupersetOf::<u8>::is_in_subset(&255u64));
    assert!(!SupersetOf::<u8>::is_in_subset(&256u64));
    assert_eq!(SupersetOf::<i8>::to_subset_unchecked(&-7i32), -7i8);
    assert_eq!(<u64 as SupersetOf<u16>>::from_subset(&65535u16), 65535u64);
    assert_eq!(<i64 as SupersetOf<i8>>::from_subset(&-128i8), -128i64);
}

#[test]
fn round_trip_through_the_superset() {
    for x in [0u8, 1, 127, 128, 255] {
        let up: i32 = SubsetOf::<i32>::to_superset(&x);
        assert_eq!(<u8 as SubsetOf<i32>>::from_superset(&up), Some(x));
    }
    for x in [i16::MIN, -1, 0, 1, i16::MAX] {
        let up: i64 = SubsetOf::<i64>::to_superset(&x);
        assert_eq!(SupersetOf::<i16>::to_subset(&up), Some(x));
    }
}
