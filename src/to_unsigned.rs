//! Conversions into the fixed-width unsigned integers: negative values
//! become zero, values above the destination's maximum become that maximum.
use crate::convert::SaturatingFrom;
use crate::model::clamp;
use vstd::prelude::*;

verus! {

impl SaturatingFrom<bool> for u8 {
    fn saturating_from(value: bool) -> (r: u8)
        ensures
            r == (if value { 1int } else { 0int }),
    {
        if value {
            1
        } else {
            0
        }
    }
}

impl SaturatingFrom<u8> for u8 {
    fn saturating_from(value: u8) -> (r: u8)
        ensures
            r == value,
    {
        value
    }
}

impl SaturatingFrom<u16> for u8 {
    fn saturating_from(value: u16) -> (r: u8)
        ensures
            r == clamp(value as int, u8::MIN as int, u8::MAX as int),
    {
        if value > u8::MAX as u16 {
            u8::MAX
        } else {
            value as u8
        }
    }
}

impl SaturatingFrom<u32> for u8 {
    fn saturating_from(value: u32) -> (r: u8)
        ensures
            r == clamp(value as int, u8::MIN as int, u8::MAX as int),
    {
        if value > u8::MAX as u32 {
            u8::MAX
        } else {
            value as u8
        }
    }
}

impl SaturatingFrom<u64> for u8 {
    fn saturating_from(value: u64) -> (r: u8)
        ensures
            r == clamp(value as int, u8::MIN as int, u8::MAX as int),
    {
        if value > u8::MAX as u64 {
            u8::MAX
        } else {
            value as u8
        }
    }
}

impl SaturatingFrom<u128> for u8 {
    fn saturating_from(value: u128) -> (r: u8)
        ensures
            r == clamp(value as int, u8::MIN as int, u8::MAX as int),
    {
        if value > u8::MAX as u128 {
            u8::MAX
        } else {
            value as u8
        }
    }
}

impl SaturatingFrom<usize> for u8 {
    fn saturating_from(value: usize) -> (r: u8)
        ensures
            r == clamp(value as int, u8::MIN as int, u8::MAX as int),
    {
        if value > u8::MAX as usize {
            u8::MAX
        } else {
            value as u8
        }
    }
}

impl SaturatingFrom<i8> for u8 {
    fn saturating_from(value: i8) -> (r: u8)
        ensures
            r == clamp(value as int, u8::MIN as int, u8::MAX as int),
    {
        if value < 0 {
            u8::MIN
        } else {
            value as u8
        }
    }
}

impl SaturatingFrom<i16> for u8 {
    fn saturating_from(value: i16) -> (r: u8)
        ensures
            r == clamp(value as int, u8::MIN as int, u8::MAX as int),
    {
        if value > u8::MAX as i16 {
            u8::MAX
        } else if value < 0 {
            u8::MIN
        } else {
            value as u8
        }
    }
}

impl SaturatingFrom<i32> for u8 {
    fn saturating_from(value: i32) -> (r: u8)
        ensures
            r == clamp(value as int, u8::MIN as int, u8::MAX as int),
    {
        if value > u8::MAX as i32 {
            u8::MAX
        } else if value < 0 {
            u8::MIN
        } else {
            value as u8
        }
    }
}

impl SaturatingFrom<i64> for u8 {
    fn saturating_from(value: i64) -> (r: u8)
        ensures
            r == clamp(value as int, u8::MIN as int, u8::MAX as int),
    {
        if value > u8::MAX as i64 {
            u8::MAX
        } else if value < 0 {
            u8::MIN
        } else {
            value as u8
        }
    }
}

impl SaturatingFrom<i128> for u8 {
    fn saturating_from(value: i128) -> (r: u8)
        ensures
            r == clamp(value as int, u8::MIN as int, u8::MAX as int),
    {
        if value > u8::MAX as i128 {
            u8::MAX
        } else if value < 0 {
            u8::MIN
        } else {
            value as u8
        }
    }
}

impl SaturatingFrom<isize> for u8 {
    fn saturating_from(value: isize) -> (r: u8)
        ensures
            r == clamp(value as int, u8::MIN as int, u8::MAX as int),
    {
        if value > u8::MAX as isize {
            u8::MAX
        } else if value < 0 {
            u8::MIN
        } else {
            value as u8
        }
    }
}

impl SaturatingFrom<bool> for u16 {
    fn saturating_from(value: bool) -> (r: u16)
        ensures
            r == (if value { 1int } else { 0int }),
    {
        if value {
            1
        } else {
            0
        }
    }
}

impl SaturatingFrom<u8> for u16 {
    fn saturating_from(value: u8) -> (r: u16)
        ensures
            r == value,
    {
        value as u16
    }
}

impl SaturatingFrom<u16> for u16 {
    fn saturating_from(value: u16) -> (r: u16)
        ensures
            r == value,
    {
        value
    }
}

impl SaturatingFrom<u32> for u16 {
    fn saturating_from(value: u32) -> (r: u16)
        ensures
            r == clamp(value as int, u16::MIN as int, u16::MAX as int),
    {
        if value > u16::MAX as u32 {
            u16::MAX
        } else {
            value as u16
        }
    }
}

impl SaturatingFrom<u64> for u16 {
    fn saturating_from(value: u64) -> (r: u16)
        ensures
            r == clamp(value as int, u16::MIN as int, u16::MAX as int),
    {
        if value > u16::MAX as u64 {
            u16::MAX
        } else {
            value as u16
        }
    }
}

impl SaturatingFrom<u128> for u16 {
    fn saturating_from(value: u128) -> (r: u16)
        ensures
            r == clamp(value as int, u16::MIN as int, u16::MAX as int),
    {
        if value > u16::MAX as u128 {
            u16::MAX
        } else {
            value as u16
        }
    }
}

impl SaturatingFrom<usize> for u16 {
    fn saturating_from(value: usize) -> (r: u16)
        ensures
            r == clamp(value as int, u16::MIN as int, u16::MAX as int),
    {
        if value > u16::MAX as usize {
            u16::MAX
        } else {
            value as u16
        }
    }
}

impl SaturatingFrom<i8> for u16 {
    fn saturating_from(value: i8) -> (r: u16)
        ensures
            r == clamp(value as int, u16::MIN as int, u16::MAX as int),
    {
        if value < 0 {
            u16::MIN
        } else {
            value as u16
        }
    }
}

impl SaturatingFrom<i16> for u16 {
    fn saturating_from(value: i16) -> (r: u16)
        ensures
            r == clamp(value as int, u16::MIN as int, u16::MAX as int),
    {
        if value < 0 {
            u16::MIN
        } else {
            value as u16
        }
    }
}

impl SaturatingFrom<i32> for u16 {
    fn saturating_from(value: i32) -> (r: u16)
        ensures
            r == clamp(value as int, u16::MIN as int, u16::MAX as int),
    {
        if value > u16::MAX as i32 {
            u16::MAX
        } else if value < 0 {
            u16::MIN
        } else {
            value as u16
        }
    }
}

impl SaturatingFrom<i64> for u16 {
    fn saturating_from(value: i64) -> (r: u16)
        ensures
            r == clamp(value as int, u16::MIN as int, u16::MAX as int),
    {
        if value > u16::MAX as i64 {
            u16::MAX
        } else if value < 0 {
            u16::MIN
        } else {
            value as u16
        }
    }
}

impl SaturatingFrom<i128> for u16 {
    fn saturating_from(value: i128) -> (r: u16)
        ensures
            r == clamp(value as int, u16::MIN as int, u16::MAX as int),
    {
        if value > u16::MAX as i128 {
            u16::MAX
        } else if value < 0 {
            u16::MIN
        } else {
            value as u16
        }
    }
}

impl SaturatingFrom<isize> for u16 {
    fn saturating_from(value: isize) -> (r: u16)
        ensures
            r == clamp(value as int, u16::MIN as int, u16::MAX as int),
    {
        if (value as i128) > (u16::MAX as i128) {
            u16::MAX
        } else if value < 0 {
            u16::MIN
        } else {
            value as u16
        }
    }
}

impl SaturatingFrom<bool> for u32 {
    fn saturating_from(value: bool) -> (r: u32)
        ensures
            r == (if value { 1int } else { 0int }),
    {
        if value {
            1
        } else {
            0
        }
    }
}

impl SaturatingFrom<u8> for u32 {
    fn saturating_from(value: u8) -> (r: u32)
        ensures
            r == value,
    {
        value as u32
    }
}

impl SaturatingFrom<u16> for u32 {
    fn saturating_from(value: u16) -> (r: u32)
        ensures
            r == value,
    {
        value as u32
    }
}

impl SaturatingFrom<u32> for u32 {
    fn saturating_from(value: u32) -> (r: u32)
        ensures
            r == value,
    {
        value
    }
}

impl SaturatingFrom<u64> for u32 {
    fn saturating_from(value: u64) -> (r: u32)
        ensures
            r == clamp(value as int, u32::MIN as int, u32::MAX as int),
    {
        if value > u32::MAX as u64 {
            u32::MAX
        } else {
            value as u32
        }
    }
}

impl SaturatingFrom<u128> for u32 {
    fn saturating_from(value: u128) -> (r: u32)
        ensures
            r == clamp(value as int, u32::MIN as int, u32::MAX as int),
    {
        if value > u32::MAX as u128 {
            u32::MAX
        } else {
            value as u32
        }
    }
}

impl SaturatingFrom<usize> for u32 {
    fn saturating_from(value: usize) -> (r: u32)
        ensures
            r == clamp(value as int, u32::MIN as int, u32::MAX as int),
    {
        if (value as u128) > (u32::MAX as u128) {
            u32::MAX
        } else {
            value as u32
        }
    }
}

impl SaturatingFrom<i8> for u32 {
    fn saturating_from(value: i8) -> (r: u32)
        ensures
            r == clamp(value as int, u32::MIN as int, u32::MAX as int),
    {
        if value < 0 {
            u32::MIN
        } else {
            value as u32
        }
    }
}

impl SaturatingFrom<i16> for u32 {
    fn saturating_from(value: i16) -> (r: u32)
        ensures
            r == clamp(value as int, u32::MIN as int, u32::MAX as int),
    {
        if value < 0 {
            u32::MIN
        } else {
            value as u32
        }
    }
}

impl SaturatingFrom<i32> for u32 {
    fn saturating_from(value: i32) -> (r: u32)
        ensures
            r == clamp(value as int, u32::MIN as int, u32::MAX as int),
    {
        if value < 0 {
            u32::MIN
        } else {
            value as u32
        }
    }
}

impl SaturatingFrom<i64> for u32 {
    fn saturating_from(value: i64) -> (r: u32)
        ensures
            r == clamp(value as int, u32::MIN as int, u32::MAX as int),
    {
        if value > u32::MAX as i64 {
            u32::MAX
        } else if value < 0 {
            u32::MIN
        } else {
            value as u32
        }
    }
}

impl SaturatingFrom<i128> for u32 {
    fn saturating_from(value: i128) -> (r: u32)
        ensures
            r == clamp(value as int, u32::MIN as int, u32::MAX as int),
    {
        if value > u32::MAX as i128 {
            u32::MAX
        } else if value < 0 {
            u32::MIN
        } else {
            value as u32
        }
    }
}

impl SaturatingFrom<isize> for u32 {
    fn saturating_from(value: isize) -> (r: u32)
        ensures
            r == clamp(value as int, u32::MIN as int, u32::MAX as int),
    {
        if (value as i128) > (u32::MAX as i128) {
            u32::MAX
        } else if value < 0 {
            u32::MIN
        } else {
            value as u32
        }
    }
}

impl SaturatingFrom<bool> for u64 {
    fn saturating_from(value: bool) -> (r: u64)
        ensures
            r == (if value { 1int } else { 0int }),
    {
        if value {
            1
        } else {
            0
        }
    }
}

impl SaturatingFrom<u8> for u64 {
    fn saturating_from(value: u8) -> (r: u64)
        ensures
            r == value,
    {
        value as u64
    }
}

impl SaturatingFrom<u16> for u64 {
    fn saturating_from(value: u16) -> (r: u64)
        ensures
            r == value,
    {
        value as u64
    }
}

impl SaturatingFrom<u32> for u64 {
    fn saturating_from(value: u32) -> (r: u64)
        ensures
            r == value,
    {
        value as u64
    }
}

impl SaturatingFrom<u64> for u64 {
    fn saturating_from(value: u64) -> (r: u64)
        ensures
            r == value,
    {
        value
    }
}

impl SaturatingFrom<u128> for u64 {
    fn saturating_from(value: u128) -> (r: u64)
        ensures
            r == clamp(value as int, u64::MIN as int, u64::MAX as int),
    {
        if value > u64::MAX as u128 {
            u64::MAX
        } else {
            value as u64
        }
    }
}

impl SaturatingFrom<usize> for u64 {
    fn saturating_from(value: usize) -> (r: u64)
        ensures
            r == value,
    {
        value as u64
    }
}

impl SaturatingFrom<i8> for u64 {
    fn saturating_from(value: i8) -> (r: u64)
        ensures
            r == clamp(value as int, u64::MIN as int, u64::MAX as int),
    {
        if value < 0 {
            u64::MIN
        } else {
            value as u64
        }
    }
}

impl SaturatingFrom<i16> for u64 {
    fn saturating_from(value: i16) -> (r: u64)
        ensures
            r == clamp(value as int, u64::MIN as int, u64::MAX as int),
    {
        if value < 0 {
            u64::MIN
        } else {
            value as u64
        }
    }
}

impl SaturatingFrom<i32> for u64 {
    fn saturating_from(value: i32) -> (r: u64)
        ensures
            r == clamp(value as int, u64::MIN as int, u64::MAX as int),
    {
        if value < 0 {
            u64::MIN
        } else {
            value as u64
        }
    }
}

impl SaturatingFrom<i64> for u64 {
    fn saturating_from(value: i64) -> (r: u64)
        ensures
            r == clamp(value as int, u64::MIN as int, u64::MAX as int),
    {
        if value < 0 {
            u64::MIN
        } else {
            value as u64
        }
    }
}

impl SaturatingFrom<i128> for u64 {
    fn saturating_from(value: i128) -> (r: u64)
        ensures
            r == clamp(value as int, u64::MIN as int, u64::MAX as int),
    {
        if value > u64::MAX as i128 {
            u64::MAX
        } else if value < 0 {
            u64::MIN
        } else {
            value as u64
        }
    }
}

impl SaturatingFrom<isize> for u64 {
    fn saturating_from(value: isize) -> (r: u64)
        ensures
            r == clamp(value as int, u64::MIN as int, u64::MAX as int),
    {
        if value < 0 {
            u64::MIN
        } else {
            value as u64
        }
    }
}

impl SaturatingFrom<bool> for u128 {
    fn saturating_from(value: bool) -> (r: u128)
        ensures
            r == (if value { 1int } else { 0int }),
    {
        if value {
            1
        } else {
            0
        }
    }
}

impl SaturatingFrom<u8> for u128 {
    fn saturating_from(value: u8) -> (r: u128)
        ensures
            r == value,
    {
        value as u128
    }
}

impl SaturatingFrom<u16> for u128 {
    fn saturating_from(value: u16) -> (r: u128)
        ensures
            r == value,
    {
        value as u128
    }
}

impl SaturatingFrom<u32> for u128 {
    fn saturating_from(value: u32) -> (r: u128)
        ensures
            r == value,
    {
        value as u128
    }
}

impl SaturatingFrom<u64> for u128 {
    fn saturating_from(value: u64) -> (r: u128)
        ensures
            r == value,
    {
        value as u128
    }
}

impl SaturatingFrom<u128> for u128 {
    fn saturating_from(value: u128) -> (r: u128)
        ensures
            r == value,
    {
        value
    }
}

impl SaturatingFrom<usize> for u128 {
    fn saturating_from(value: usize) -> (r: u128)
        ensures
            r == value,
    {
        value as u128
    }
}

impl SaturatingFrom<i8> for u128 {
    fn saturating_from(value: i8) -> (r: u128)
        ensures
            r == clamp(value as int, u128::MIN as int, u128::MAX as int),
    {
        if value < 0 {
            u128::MIN
        } else {
            value as u128
        }
    }
}

impl SaturatingFrom<i16> for u128 {
    fn saturating_from(value: i16) -> (r: u128)
        ensures
            r == clamp(value as int, u128::MIN as int, u128::MAX as int),
    {
        if value < 0 {
            u128::MIN
        } else {
            value as u128
        }
    }
}

impl SaturatingFrom<i32> for u128 {
    fn saturating_from(value: i32) -> (r: u128)
        ensures
            r == clamp(value as int, u128::MIN as int, u128::MAX as int),
    {
        if value < 0 {
            u128::MIN
        } else {
            value as u128
        }
    }
}

impl SaturatingFrom<i64> for u128 {
    fn saturating_from(value: i64) -> (r: u128)
        ensures
            r == clamp(value as int, u128::MIN as int, u128::MAX as int),
    {
        if value < 0 {
            u128::MIN
        } else {
            value as u128
        }
    }
}

impl SaturatingFrom<i128> for u128 {
    fn saturating_from(value: i128) -> (r: u128)
        ensures
            r == clamp(value as int, u128::MIN as int, u128::MAX as int),
    {
        if value < 0 {
            u128::MIN
        } else {
            value as u128
        }
    }
}

impl SaturatingFrom<isize> for u128 {
    fn saturating_from(value: isize) -> (r: u128)
        ensures
            r == clamp(value as int, u128::MIN as int, u128::MAX as int),
    {
        if value < 0 {
            u128::MIN
        } else {
            value as u128
        }
    }
}

} // verus!
