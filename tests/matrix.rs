use saturate::{Bounded, SaturatingFrom, SaturatingInto};

fn has_impl_inner<T: SaturatingFrom<U>, U: Bounded + SaturatingInto<T>>() {}

#[test]
fn has_impl() {
    has_impl_inner::<u128, u128>();
    has_impl_inner::<i128, u128>();
    has_impl_inner::<u64, u128>();
    has_impl_inner::<i64, u128>();
    has_impl_inner::<u32, u128>();
    has_impl_inner::<i32, u128>();
    has_impl_inner::<u16, u128>();
    has_impl_inner::<i16, u128>();
    has_impl_inner::<u8, u128>();
    has_impl_inner::<i8, u128>();
    has_impl_inner::<usize, u128>();
    has_impl_inner::<isize, u128>();
    has_impl_inner::<bool, u128>();
    has_impl_inner::<u128, i128>();
    has_impl_inner::<i128, i128>();
    has_impl_inner::<u64, i128>();
    has_impl_inner::<i64, i128>();
    has_impl_inner::<u32, i128>();
    has_impl_inner::<i32, i128>();
    has_impl_inner::<u16, i128>();
    has_impl_inner::<i16, i128>();
    has_impl_inner::<u8, i128>();
    has_impl_inner::<i8, i128>();
    has_impl_inner::<usize, i128>();
    has_impl_inner::<isize, i128>();
    has_impl_inner::<bool, i128>();
    has_impl_inner::<u128, u64>();
    has_impl_inner::<i128, u64>();
    has_impl_inner::<u64, u64>();
    has_impl_inner::<i64, u64>();
    has_impl_inner::<u32, u64>();
    has_impl_inner::<i32, u64>();
    has_impl_inner::<u16, u64>();
    has_impl_inner::<i16, u64>();
    has_impl_inner::<u8, u64>();
    has_impl_inner::<i8, u64>();
    has_impl_inner::<usize, u64>();
    has_impl_inner::<isize, u64>();
    has_impl_inner::<bool, u64>();
    has_impl_inner::<u128, i64>();
    has_impl_inner::<i128, i64>();
    has_impl_inner::<u64, i64>();
    has_impl_inner::<i64, i64>();
    has_impl_inner::<u32, i64>();
    has_impl_inner::<i32, i64>();
    has_impl_inner::<u16, i64>();
    has_impl_inner::<i16, i64>();
    has_impl_inner::<u8, i64>();
    has_impl_inner::<i8, i64>();
    has_impl_inner::<usize, i64>();
    has_impl_inner::<isize, i64>();
    has_impl_inner::<bool, i64>();
    has_impl_inner::<u128, u32>();
    has_impl_inner::<i128, u32>();
    has_impl_inner::<u64, u32>();
    has_impl_inner::<i64, u32>();
    has_impl_inner::<u32, u32>();
    has_impl_inner::<i32, u32>();
    has_impl_inner::<u16, u32>();
    has_impl_inner::<i16, u32>();
    has_impl_inner::<u8, u32>();
    has_impl_inner::<i8, u32>();
    has_impl_inner::<usize, u32>();
    has_impl_inner::<isize, u32>();
    has_impl_inner::<bool, u32>();
    has_impl_inner::<u128, i32>();
    has_impl_inner::<i128, i32>();
    has_impl_inner::<u64, i32>();
    has_impl_inner::<i64, i32>();
    has_impl_inner::<u32, i32>();
    has_impl_inner::<i32, i32>();
    has_impl_inner::<u16, i32>();
    has_impl_inner::<i16, i32>();
    has_impl_inner::<u8, i32>();
    has_impl_inner::<i8, i32>();
    has_impl_inner::<usize, i32>();
    has_impl_inner::<isize, i32>();
    has_impl_inner::<bool, i32>();
    has_impl_inner::<u128, u16>();
    has_impl_inner::<i128, u16>();
    has_impl_inner::<u64, u16>();
    has_impl_inner::<i64, u16>();
    has_impl_inner::<u32, u16>();
    has_impl_inner::<i32, u16>();
    has_impl_inner::<u16, u16>();
    has_impl_inner::<i16, u16>();
    has_impl_inner::<u8, u16>();
    has_impl_inner::<i8, u16>();
    has_impl_inner::<usize, u16>();
    has_impl_inner::<isize, u16>();
    has_impl_inner::<bool, u16>();
    has_impl_inner::<u128, i16>();
    has_impl_inner::<i128, i16>();
    has_impl_inner::<u64, i16>();
    has_impl_inner::<i64, i16>();
    has_impl_inner::<u32, i16>();
    has_impl_inner::<i32, i16>();
    has_impl_inner::<u16, i16>();
    has_impl_inner::<i16, i16>();
    has_impl_inner::<u8, i16>();
    has_impl_inner::<i8, i16>();
    has_impl_inner::<usize, i16>();
    has_impl_inner::<isize, i16>();
    has_impl_inner::<bool, i16>();
    has_impl_inner::<u128, u8>();
    has_impl_inner::<i128, u8>();
    has_impl_inner::<u64, u8>();
    has_impl_inner::<i64, u8>();
    has_impl_inner::<u32, u8>();
    has_impl_inner::<i32, u8>();
    has_impl_inner::<u16, u8>();
    has_impl_inner::<i16, u8>();
    has_impl_inner::<u8, u8>();
    has_impl_inner::<i8, u8>();
    has_impl_inner::<usize, u8>();
    has_impl_inner::<isize, u8>();
    has_impl_inner::<bool, u8>();
    has_impl_inner::<u128, i8>();
    has_impl_inner::<i128, i8>();
    has_impl_inner::<u64, i8>();
    has_impl_inner::<i64, i8>();
    has_impl_inner::<u32, i8>();
    has_impl_inner::<i32, i8>();
    has_impl_inner::<u16, i8>();
    has_impl_inner::<i16, i8>();
    has_impl_inner::<u8, i8>();
    has_impl_inner::<i8, i8>();
    has_impl_inner::<usize, i8>();
    has_impl_inner::<isize, i8>();
    has_impl_inner::<bool, i8>();
    has_impl_inner::<u128, usize>();
    has_impl_inner::<i128, usize>();
    has_impl_inner::<u64, usize>();
    has_impl_inner::<i64, usize>();
    has_impl_inner::<u32, usize>();
    has_impl_inner::<i32, usize>();
    has_impl_inner::<u16, usize>();
    has_impl_inner::<i16, usize>();
    has_impl_inner::<u8, usize>();
    has_impl_inner::<i8, usize>();
    has_impl_inner::<usize, usize>();
    has_impl_inner::<isize, usize>();
    has_impl_inner::<bool, usize>();
    has_impl_inner::<u128, isize>();
    has_impl_inner::<i128, isize>();
    has_impl_inner::<u64, isize>();
    has_impl_inner::<i64, isize>();
    has_impl_inner::<u32, isize>();
    has_impl_inner::<i32, isize>();
    has_impl_inner::<u16, isize>();
    has_impl_inner::<i16, isize>();
    has_impl_inner::<u8, isize>();
    has_impl_inner::<i8, isize>();
    has_impl_inner::<usize, isize>();
    has_impl_inner::<isize, isize>();
    has_impl_inner::<bool, isize>();
    has_impl_inner::<u128, bool>();
    has_impl_inner::<i128, bool>();
    has_impl_inner::<u64, bool>();
    has_impl_inner::<i64, bool>();
    has_impl_inner::<u32, bool>();
    has_impl_inner::<i32, bool>();
    has_impl_inner::<u16, bool>();
    has_impl_inner::<i16, bool>();
    has_impl_inner::<u8, bool>();
    has_impl_inner::<i8, bool>();
    has_impl_inner::<usize, bool>();
    has_impl_inner::<isize, bool>();
    has_impl_inner::<bool, bool>();
}
