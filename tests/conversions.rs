use saturate::{SaturatingFrom, SaturatingInto};

#[test]
fn impl_self() {
    assert_eq!(true, bool::saturating_from(true));
    assert_eq!(19829u32, u32::saturating_from(19829u32));
    assert_eq!(-67516716i64, i64::saturating_from(-67516716i64));
    assert_eq!(6791usize, usize::saturating_from(6791usize));
}

#[test]
fn impl_from() {
    assert_eq!(0u8, u8::saturating_from(false));
    assert_eq!(1u64, u64::saturating_from(true));
    assert_eq!(24635u32, u32::saturating_from(24635u16));
    assert_eq!(204835u128, u128::saturating_from(204835u32));
    assert_eq!(7435637u64, u64::saturating_from(7435637u32));
    assert_eq!(-1617i32, i32::saturating_from(-1617i16));
    assert_eq!(1i128, i128::saturating_from(true));
    assert_eq!(15678i32, i32::saturating_from(15678u16));
}

#[test]
fn impl_clamp() {
    assert_eq!(0u8, u8::saturating_from(-26i16));
    assert_eq!(0xffffu16, u16::saturating_from(1265431463u32));
    assert_eq!(76u8, u8::saturating_from(76i128));
    assert_eq!(-0x80i8, i8::saturating_from(-296078i32));
    assert_eq!(-0x80000000i32, i32::saturating_from(-125431462564574573i64));
    assert_eq!(-12i8, i8::saturating_from(-12i64));
}

#[test]
fn impl_clamp_unsigned() {
    assert_eq!(0x7fi8, i8::saturating_from(60954u16));
    assert_eq!(0x7fffi16, i16::saturating_from(61025u16));
    assert_eq!(62879i32, i32::saturating_from(62879u128));
}

#[test]
fn impl_clamp_signed() {
    assert_eq!(0u8, u8::saturating_from(-12i8));
    assert_eq!(0u16, u16::saturating_from(-294865i32));
    assert_eq!(62879u32, u32::saturating_from(62879i128));
}

#[test]
fn impl_gt_zero() {
    assert_eq!(false, bool::saturating_from(-12i8));
    assert_eq!(false, bool::saturating_from(-294865i32));
    assert_eq!(true, bool::saturating_from(62879i128));
}

#[test]
fn into_mirrors_from() {
    assert_eq!(0u8, (-26i16).saturating_into());
    let m: u32 = i64::MAX.saturating_into();
    assert_eq!(u32::MAX, m);
    let b: bool = 5u64.saturating_into();
    assert!(b);
    let n: i8 = 300u16.saturating_into();
    assert_eq!(i8::MAX, n);
}
