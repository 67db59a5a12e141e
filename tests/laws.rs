use saturate::SaturatingFrom;

#[test]
fn identity_on_every_type() {
    assert_eq!(false, bool::saturating_from(false));
    assert_eq!(u8::MAX, u8::saturating_from(u8::MAX));
    assert_eq!(u128::MAX, u128::saturating_from(u128::MAX));
    assert_eq!(i8::MIN, i8::saturating_from(i8::MIN));
    assert_eq!(i128::MIN, i128::saturating_from(i128::MIN));
    assert_eq!(isize::MIN, isize::saturating_from(isize::MIN));
    assert_eq!(usize::MAX, usize::saturating_from(usize::MAX));
}

#[test]
fn range_clamp_at_extremes() {
    assert_eq!(u8::MAX, u8::saturating_from(u128::MAX));
    assert_eq!(u8::MIN, u8::saturating_from(i128::MIN));
    assert_eq!(i64::MAX, i64::saturating_from(u128::MAX));
    assert_eq!(i64::MIN, i64::saturating_from(i128::MIN));
    assert_eq!(0u128, u128::saturating_from(i128::MIN));
    assert_eq!(i128::MAX, i128::saturating_from(u128::MAX));
    assert_eq!(0usize, usize::saturating_from(isize::MIN));
    assert_eq!(isize::MAX, isize::saturating_from(usize::MAX));
}

#[test]
fn boundary_values_pass_through() {
    assert_eq!(255u8, u8::saturating_from(255u16));
    assert_eq!(255u8, u8::saturating_from(256u16));
    assert_eq!(-128i8, i8::saturating_from(-128i32));
    assert_eq!(-128i8, i8::saturating_from(-129i32));
    assert_eq!(127i8, i8::saturating_from(127u64));
    assert_eq!(127i8, i8::saturating_from(128u64));
}

#[test]
fn monotonic_across_the_bound() {
    let samples = [i32::MIN, -70000, -1, 0, 1, 255, 256, 65535, 65536, i32::MAX];
    for w in samples.windows(2) {
        assert!(u16::saturating_from(w[0]) <= u16::saturating_from(w[1]));
        assert!(i8::saturating_from(w[0]) <= i8::saturating_from(w[1]));
        assert!(bool::saturating_from(w[0]) <= bool::saturating_from(w[1]));
    }
}

#[test]
fn round_trip_in_common_range() {
    assert_eq!(-100i64, i64::saturating_from(i8::saturating_from(-100i64)));
    assert_eq!(40000u32, u32::saturating_from(i32::saturating_from(40000u32)));
    assert_eq!(1u64, u64::saturating_from(bool::saturating_from(1u64)));
    assert_eq!(0i16, i16::saturating_from(bool::saturating_from(0i16)));
    assert_eq!(12345isize, isize::saturating_from(u16::saturating_from(12345isize)));
}

#[test]
fn bool_threshold() {
    assert_eq!(false, bool::saturating_from(0i32));
    assert_eq!(true, bool::saturating_from(1i32));
    assert_eq!(false, bool::saturating_from(-1i32));
    assert_eq!(false, bool::saturating_from(i128::MIN));
    assert_eq!(true, bool::saturating_from(u128::MAX));
    assert_eq!(true, bool::saturating_from(2usize));
}

#[test]
fn scenario_negative_into_u8() {
    assert_eq!(0u8, u8::saturating_from(-26i16));
}

#[test]
fn scenario_i64_max_into_u32() {
    assert_eq!(u32::MAX, u32::saturating_from(i64::MAX));
}

#[test]
fn scenario_u16_into_i8() {
    assert_eq!(127i8, i8::saturating_from(60954u16));
}

#[test]
fn scenario_negative_i32_into_u16() {
    assert_eq!(0u16, u16::saturating_from(-294865i32));
}

#[test]
fn pointer_sized_sources_and_destinations() {
    assert_eq!(u8::MAX, u8::saturating_from(1000usize));
    assert_eq!(0u32, u32::saturating_from(-7isize));
    assert_eq!(-7i8, i8::saturating_from(-7isize));
    assert_eq!(0usize, usize::saturating_from(-1i64));
    assert_eq!(70000usize, usize::saturating_from(70000u64));
    assert_eq!(isize::MAX, isize::saturating_from(u128::MAX));
    assert_eq!(isize::MIN, isize::saturating_from(i128::MIN));
    assert_eq!(1isize, isize::saturating_from(true));
    assert_eq!(true, bool::saturating_from(3isize));
}
