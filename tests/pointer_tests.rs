use rel_ptr::{Delta, IntegerDeltaError, MetaData, NoMeta, NonZeroOffset, Nullable, RelPtr, Slice, Thin, TraitObject};

#[test]
fn fresh_pointer_is_null() {
    let p: RelPtr<Thin, i8> = RelPtr::null();
    assert!(p.is_null());
    assert_eq!(p.as_raw(1000), None);
    let q: RelPtr<Thin> = RelPtr::null();
    assert!(q.is_null());
    assert_eq!(q.as_raw(4096), None);
}

#[test]
fn set_within_i8_range() {
    let mut p: RelPtr<Thin, i8> = RelPtr::null();
    assert_eq!(p.set(1000, &Thin { addr: 1100 }), Ok(()));
    assert!(!p.is_null());
    assert_eq!(p.as_raw(1000), Some(Thin { addr: 1100 }));
}

#[test]
fn set_beyond_i8_range_stays_null() {
    let mut p: RelPtr<Thin, i8> = RelPtr::null();
    assert_eq!(p.set(1000, &Thin { addr: 1200 }), Err(IntegerDeltaError::Conversion(200)));
    assert!(p.is_null());
    assert_eq!(p.as_raw(1000), None);
}

#[test]
fn failed_set_keeps_previous_target() {
    let mut p: RelPtr<Thin, i8> = RelPtr::null();
    assert_eq!(p.set(1000, &Thin { addr: 1050 }), Ok(()));
    assert_eq!(p.set(1000, &Thin { addr: 800 }), Err(IntegerDeltaError::Conversion(-200)));
    assert_eq!(p.as_raw(1000), Some(Thin { addr: 1050 }));
}

#[test]
fn i8_range_boundaries() {
    let mut p: RelPtr<Thin, i8> = RelPtr::null();
    assert_eq!(p.set(1000, &Thin { addr: 1127 }), Ok(()));
    assert_eq!(p.as_raw(1000), Some(Thin { addr: 1127 }));
    assert_eq!(p.set(1000, &Thin { addr: 872 }), Ok(()));
    assert_eq!(p.as_raw(1000), Some(Thin { addr: 872 }));
    assert_eq!(p.set(1000, &Thin { addr: 1128 }), Err(IntegerDeltaError::Conversion(128)));
    assert_eq!(p.set(1000, &Thin { addr: 871 }), Err(IntegerDeltaError::Conversion(-129)));
    assert_eq!(p.as_raw(1000), Some(Thin { addr: 872 }));
}

#[test]
fn i16_range_boundaries() {
    let base: usize = 100_000;
    let mut p: RelPtr<Thin, i16> = RelPtr::null();
    assert_eq!(p.set(base, &Thin { addr: base + 32767 }), Ok(()));
    assert_eq!(p.set(base, &Thin { addr: base - 32768 }), Ok(()));
    assert_eq!(p.set(base, &Thin { addr: base + 32768 }), Err(IntegerDeltaError::Conversion(32768)));
    assert_eq!(p.set(base, &Thin { addr: base - 32769 }), Err(IntegerDeltaError::Conversion(-32769)));
}

#[test]
fn wide_offsets_reach_far() {
    let mut p: RelPtr<Thin, i32> = RelPtr::null();
    assert_eq!(p.set(16, &Thin { addr: 16 + 2_000_000_000 }), Ok(()));
    assert_eq!(p.as_raw(16), Some(Thin { addr: 2_000_000_016 }));
    let mut q: RelPtr<Thin, i64> = RelPtr::null();
    assert_eq!(q.set(8, &Thin { addr: 1 << 40 }), Ok(()));
    assert_eq!(q.as_raw(8), Some(Thin { addr: 1 << 40 }));
    let mut r: RelPtr<Thin, i128> = RelPtr::null();
    assert_eq!(r.set(1 << 40, &Thin { addr: 8 }), Ok(()));
    assert_eq!(r.as_raw(1 << 40), Some(Thin { addr: 8 }));
}

#[test]
fn word_overflow_is_sub_error() {
    let mut p: RelPtr<Thin> = RelPtr::null();
    assert_eq!(p.set(1, &Thin { addr: usize::MAX }), Err(IntegerDeltaError::Sub(usize::MAX, 1)));
    assert!(p.is_null());
    let mut q: RelPtr<Thin, i128> = RelPtr::null();
    assert_eq!(q.set(usize::MAX, &Thin { addr: 1 }), Err(IntegerDeltaError::Sub(1, usize::MAX)));
    assert!(q.is_null());
}

#[test]
fn offset_is_in_bytes_and_signed() {
    let mut p: RelPtr<Thin, i16> = RelPtr::null();
    assert_eq!(p.set(5000, &Thin { addr: 4000 }), Ok(()));
    assert_eq!(p.as_raw(5000), Some(Thin { addr: 4000 }));
    assert_eq!(p.as_raw_unchecked(6000), Some(Thin { addr: 5000 }));
}

#[test]
fn relocation_keeps_target() {
    let mut p: RelPtr<Thin, i8> = RelPtr::null();
    assert_eq!(p.set(1000, &Thin { addr: 1016 }), Ok(()));
    let moved = p;
    assert_eq!(moved.as_raw(70_000), Some(Thin { addr: 70_016 }));
    assert_eq!(p.as_raw(1000), Some(Thin { addr: 1016 }));
}

#[test]
fn slice_length_survives() {
    let s = Slice { addr: 2000, len: 7 };
    let (addr, len) = s.decompose();
    assert_eq!((addr, len), (2000, 7));
    assert_eq!(Slice::compose(addr, len), Some(s));
    let mut p: RelPtr<Slice, i16> = RelPtr::null();
    assert_eq!(p.set(1990, &s), Ok(()));
    assert_eq!(p.as_raw(1990), Some(Slice { addr: 2000, len: 7 }));
    assert_eq!(p.as_raw(3990), Some(Slice { addr: 4000, len: 7 }));
}

#[test]
fn trait_object_keeps_vtable() {
    let t = TraitObject { data: 3000, vtable: 0xdead_0000 };
    let mut p: RelPtr<TraitObject, i32> = RelPtr::null();
    assert_eq!(p.as_raw(2000), None);
    assert_eq!(p.set(2000, &t), Ok(()));
    assert_eq!(p.as_raw(2000), Some(TraitObject { data: 3000, vtable: 0xdead_0000 }));
}

#[test]
fn null_address_composes_to_none() {
    assert_eq!(Thin::compose(0, NoMeta), None);
    assert_eq!(Slice::compose(0, 3), None);
    assert_eq!(TraitObject::compose(0, 9), None);
    assert_eq!(Thin::compose(12, NoMeta), Some(Thin { addr: 12 }));
    assert_eq!(Slice::default_data(), 0);
}

#[test]
fn coinciding_pointer_and_pointee_read_as_null() {
    let mut p: RelPtr<Thin, i8> = RelPtr::null();
    assert_eq!(p.set(1000, &Thin { addr: 1000 }), Ok(()));
    assert!(p.is_null());
    assert_eq!(p.as_raw(1000), None);
    assert_eq!(p.as_raw_unchecked(1000), Some(Thin { addr: 1000 }));
}

#[test]
fn unchecked_paths_match_checked() {
    let mut p: RelPtr<Thin, i8> = RelPtr::null();
    p.set_unchecked(1000, &Thin { addr: 1100 });
    assert_eq!(p.as_raw_unchecked(1000), Some(Thin { addr: 1100 }));
    assert_eq!(p.as_non_null_unchecked(1000), Thin { addr: 1100 });
    assert_eq!(p.as_non_null_unchecked(2000), Thin { addr: 2100 });
}

#[test]
fn from_offset_builds_pointer() {
    let p: RelPtr<Thin, i8> = RelPtr::from(5);
    assert!(!p.is_null());
    assert_eq!(p.as_raw(100), Some(Thin { addr: 105 }));
    let q: RelPtr<Thin, i8> = RelPtr::from(0);
    assert!(q.is_null());
}

#[test]
fn delta_operations_on_integers() {
    assert_eq!(<i8 as Delta>::sub(10, 5), Ok(5));
    assert_eq!(<i8 as Delta>::sub(5, 10), Ok(-5));
    assert_eq!(<i8 as Delta>::sub(300, 10), Err(IntegerDeltaError::Conversion(290)));
    assert_eq!(<i16 as Delta>::sub_unchecked(10, 300), -290);
    assert_eq!(<i8 as Delta>::add(-5, 10), 5);
    assert_eq!(<isize as Delta>::add(7, 10), 17);
    assert_eq!(<isize as Delta>::sub(usize::MAX, 0), Err(IntegerDeltaError::Sub(usize::MAX, 0)));
    assert_eq!(<i64 as Nullable>::null(), 0);
    assert!(<i32 as Nullable>::is_null(&0));
    assert!(!<i32 as Nullable>::is_null(&3));
}

#[test]
fn clone_keeps_offset_and_descriptor() {
    let mut p: RelPtr<Slice, i16> = RelPtr::null();
    assert_eq!(p.set(1000, &Slice { addr: 1300, len: 4 }), Ok(()));
    let q = p.clone();
    assert_eq!(q.as_raw(1000), Some(Slice { addr: 1300, len: 4 }));
    assert_eq!(q.as_raw(9000), Some(Slice { addr: 9300, len: 4 }));
}

#[test]
fn nonzero_offset_construction() {
    assert_eq!(NonZeroOffset::new(0i8), None);
    let n = NonZeroOffset::new(-7i8).unwrap();
    assert_eq!(n.get(), -7);
    assert_eq!(n.add(100), 93);
}

#[test]
fn nonzero_offset_rejects_coinciding_addresses() {
    assert_eq!(<NonZeroOffset<i8> as Delta>::sub(1000, 1000), Err(IntegerDeltaError::InvalidNonZero));
    assert_eq!(<NonZeroOffset<i8> as Delta>::sub(1000, 1005).map(|n| n.get()), Ok(-5));
    assert_eq!(<NonZeroOffset<i8> as Delta>::sub(1200, 1000), Err(IntegerDeltaError::Conversion(200)));
    assert_eq!(
        <NonZeroOffset<isize> as Delta>::sub(usize::MAX, 0),
        Err(IntegerDeltaError::Sub(usize::MAX, 0))
    );
    assert_eq!(<NonZeroOffset<i16> as Delta>::sub_unchecked(10, 300).get(), -290);
}

#[test]
fn nonzero_pointer_set_and_read() {
    let mut p: RelPtr<Thin, NonZeroOffset<i8>> = RelPtr::from(NonZeroOffset::new(1i8).unwrap());
    assert_eq!(p.set(1000, &Thin { addr: 1000 }), Err(IntegerDeltaError::InvalidNonZero));
    assert_eq!(p.as_raw_unchecked(1000), Some(Thin { addr: 1001 }));
    assert_eq!(p.set(1000, &Thin { addr: 1127 }), Ok(()));
    assert_eq!(p.as_non_null_unchecked(1000), Thin { addr: 1127 });
    assert_eq!(p.set(1000, &Thin { addr: 1128 }), Err(IntegerDeltaError::Conversion(128)));
    assert_eq!(p.as_raw_unchecked(2000), Some(Thin { addr: 2127 }));
}
