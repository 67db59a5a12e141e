//! Conversions into the fixed-width signed integers: values outside the
//! destination's range saturate to its nearer bound.
use crate::convert::SaturatingFrom;
use crate::model::clamp;
use vstd::prelude::*;

verus! {

impl SaturatingFrom<bool> for i8 {
    fn saturating_from(value: bool) -> (r: i8)
        ensures
            r == (if value { 1int } else { 0int }),
    {
        if value {
            1
        } else {
            0
        }
    }
}

impl SaturatingFrom<u8> for i8 {
    fn saturating_from(value: u8) -> (r: i8)
        ensures
            r == clamp(value as int, i8::MIN as int, i8::MAX as int),
    {
        if value > i8::MAX as u8 {
            i8::MAX
        } else {
            value as i8
        }
    }
}

impl SaturatingFrom<u16> for i8 {
    fn saturating_from(value: u16) -> (r: i8)
        ensures
            r == clamp(value as int, i8::MIN as int, i8::MAX as int),
    {
        if value > i8::MAX as u16 {
            i8::MAX
        } else {
            value as i8
        }
    }
}

impl SaturatingFrom<u32> for i8 {
    fn saturating_from(value: u32) -> (r: i8)
        ensures
            r == clamp(value as int, i8::MIN as int, i8::MAX as int),
    {
        if value > i8::MAX as u32 {
            i8::MAX
        } else {
            value as i8
        }
    }
}

impl SaturatingFrom<u64> for i8 {
    fn saturating_from(value: u64) -> (r: i8)
        ensures
            r == clamp(value as int, i8::MIN as int, i8::MAX as int),
    {
        if value > i8::MAX as u64 {
            i8::MAX
        } else {
            value as i8
        }
    }
}

impl SaturatingFrom<u128> for i8 {
    fn saturating_from(value: u128) -> (r: i8)
        ensures
            r == clamp(value as int, i8::MIN as int, i8::MAX as int),
    {
        if value > i8::MAX as u128 {
            i8::MAX
        } else {
            value as i8
        }
    }
}

impl SaturatingFrom<usize> for i8 {
    fn saturating_from(value: usize) -> (r: i8)
        ensures
            r == clamp(value as int, i8::MIN as int, i8::MAX as int),
    {
        if value > i8::MAX as usize {
            i8::MAX
        } else {
            value as i8
        }
    }
}

impl SaturatingFrom<i8> for i8 {
    fn saturating_from(value: i8) -> (r: i8)
        ensures
            r == value,
    {
        value
    }
}

impl SaturatingFrom<i16> for i8 {
    fn saturating_from(value: i16) -> (r: i8)
        ensures
            r == clamp(value as int, i8::MIN as int, i8::MAX as int),
    {
        if value > i8::MAX as i16 {
            i8::MAX
        } else if value < i8::MIN as i16 {
            i8::MIN
        } else {
            value as i8
        }
    }
}

impl SaturatingFrom<i32> for i8 {
    fn saturating_from(value: i32) -> (r: i8)
        ensures
            r == clamp(value as int, i8::MIN as int, i8::MAX as int),
    {
        if value > i8::MAX as i32 {
            i8::MAX
        } else if value < i8::MIN as i32 {
            i8::MIN
        } else {
            value as i8
        }
    }
}

impl SaturatingFrom<i64> for i8 {
    fn saturating_from(value: i64) -> (r: i8)
        ensures
            r == clamp(value as int, i8::MIN as int, i8::MAX as int),
    {
        if value > i8::MAX as i64 {
            i8::MAX
        } else if value < i8::MIN as i64 {
            i8::MIN
        } else {
            value as i8
        }
    }
}

impl SaturatingFrom<i128> for i8 {
    fn saturating_from(value: i128) -> (r: i8)
        ensures
            r == clamp(value as int, i8::MIN as int, i8::MAX as int),
    {
        if value > i8::MAX as i128 {
            i8::MAX
        } else if value < i8::MIN as i128 {
            i8::MIN
        } else {
            value as i8
        }
    }
}

impl SaturatingFrom<isize> for i8 {
    fn saturating_from(value: isize) -> (r: i8)
        ensures
            r == clamp(value as int, i8::MIN as int, i8::MAX as int),
    {
        if value > i8::MAX as isize {
            i8::MAX
        } else if value < i8::MIN as isize {
            i8::MIN
        } else {
            value as i8
        }
    }
}

impl SaturatingFrom<bool> for i16 {
    fn saturating_from(value: bool) -> (r: i16)
        ensures
            r == (if value { 1int } else { 0int }),
    {
        if value {
            1
        } else {
            0
        }
    }
}

impl SaturatingFrom<u8> for i16 {
    fn saturating_from(value: u8) -> (r: i16)
        ensures
            r == value,
    {
        value as i16
    }
}

impl SaturatingFrom<u16> for i16 {
    fn saturating_from(value: u16) -> (r: i16)
        ensures
            r == clamp(value as int, i16::MIN as int, i16::MAX as int),
    {
        if value > i16::MAX as u16 {
            i16::MAX
        } else {
            value as i16
        }
    }
}

impl SaturatingFrom<u32> for i16 {
    fn saturating_from(value: u32) -> (r: i16)
        ensures
            r == clamp(value as int, i16::MIN as int, i16::MAX as int),
    {
        if value > i16::MAX as u32 {
            i16::MAX
        } else {
            value as i16
        }
    }
}

impl SaturatingFrom<u64> for i16 {
    fn saturating_from(value: u64) -> (r: i16)
        ensures
            r == clamp(value as int, i16::MIN as int, i16::MAX as int),
    {
        if value > i16::MAX as u64 {
            i16::MAX
        } else {
            value as i16
        }
    }
}

impl SaturatingFrom<u128> for i16 {
    fn saturating_from(value: u128) -> (r: i16)
        ensures
            r == clamp(value as int, i16::MIN as int, i16::MAX as int),
    {
        if value > i16::MAX as u128 {
            i16::MAX
        } else {
            value as i16
        }
    }
}

impl SaturatingFrom<usize> for i16 {
    fn saturating_from(value: usize) -> (r: i16)
        ensures
            r == clamp(value as int, i16::MIN as int, i16::MAX as int),
    {
        if value > i16::MAX as usize {
            i16::MAX
        } else {
            value as i16
        }
    }
}

impl SaturatingFrom<i8> for i16 {
    fn saturating_from(value: i8) -> (r: i16)
        ensures
            r == value,
    {
        value as i16
    }
}

impl SaturatingFrom<i16> for i16 {
    fn saturating_from(value: i16) -> (r: i16)
        ensures
            r == value,
    {
        value
    }
}

impl SaturatingFrom<i32> for i16 {
    fn saturating_from(value: i32) -> (r: i16)
        ensures
            r == clamp(value as int, i16::MIN as int, i16::MAX as int),
    {
        if value > i16::MAX as i32 {
            i16::MAX
        } else if value < i16::MIN as i32 {
            i16::MIN
        } else {
            value as i16
        }
    }
}

impl SaturatingFrom<i64> for i16 {
    fn saturating_from(value: i64) -> (r: i16)
        ensures
            r == clamp(value as int, i16::MIN as int, i16::MAX as int),
    {
        if value > i16::MAX as i64 {
            i16::MAX
        } else if value < i16::MIN as i64 {
            i16::MIN
        } else {
            value as i16
        }
    }
}

impl SaturatingFrom<i128> for i16 {
    fn saturating_from(value: i128) -> (r: i16)
        ensures
            r == clamp(value as int, i16::MIN as int, i16::MAX as int),
    {
        if value > i16::MAX as i128 {
            i16::MAX
        } else if value < i16::MIN as i128 {
            i16::MIN
        } else {
            value as i16
        }
    }
}

impl SaturatingFrom<isize> for i16 {
    fn saturating_from(value: isize) -> (r: i16)
        ensures
            r == clamp(value as int, i16::MIN as int, i16::MAX as int),
    {
        if value > i16::MAX as isize {
            i16::MAX
        } else if value < i16::MIN as isize {
            i16::MIN
        } else {
            value as i16
        }
    }
}

impl SaturatingFrom<bool> for i32 {
    fn saturating_from(value: bool) -> (r: i32)
        ensures
            r == (if value { 1int } else { 0int }),
    {
        if value {
            1
        } else {
            0
        }
    }
}

impl SaturatingFrom<u8> for i32 {
    fn saturating_from(value: u8) -> (r: i32)
        ensures
            r == value,
    {
        value as i32
    }
}

impl SaturatingFrom<u16> for i32 {
    fn saturating_from(value: u16) -> (r: i32)
        ensures
            r == value,
    {
        value as i32
    }
}

impl SaturatingFrom<u32> for i32 {
    fn saturating_from(value: u32) -> (r: i32)
        ensures
            r == clamp(value as int, i32::MIN as int, i32::MAX as int),
    {
        if value > i32::MAX as u32 {
            i32::MAX
        } else {
            value as i32
        }
    }
}

impl SaturatingFrom<u64> for i32 {
    fn saturating_from(value: u64) -> (r: i32)
        ensures
            r == clamp(value as int, i32::MIN as int, i32::MAX as int),
    {
        if value > i32::MAX as u64 {
            i32::MAX
        } else {
            value as i32
        }
    }
}

impl SaturatingFrom<u128> for i32 {
    fn saturating_from(value: u128) -> (r: i32)
        ensures
            r == clamp(value as int, i32::MIN as int, i32::MAX as int),
    {
        if value > i32::MAX as u128 {
            i32::MAX
        } else {
            value as i32
        }
    }
}

impl SaturatingFrom<usize> for i32 {
    fn saturating_from(value: usize) -> (r: i32)
        ensures
            r == clamp(value as int, i32::MIN as int, i32::MAX as int),
    {
        if (value as u128) > (i32::MAX as u128) {
            i32::MAX
        } else {
            value as i32
        }
    }
}

impl SaturatingFrom<i8> for i32 {
    fn saturating_from(value: i8) -> (r: i32)
        ensures
            r == value,
    {
        value as i32
    }
}

impl SaturatingFrom<i16> for i32 {
    fn saturating_from(value: i16) -> (r: i32)
        ensures
            r == value,
    {
        value as i32
    }
}

impl SaturatingFrom<i32> for i32 {
    fn saturating_from(value: i32) -> (r: i32)
        ensures
            r == value,
    {
        value
    }
}

impl SaturatingFrom<i64> for i32 {
    fn saturating_from(value: i64) -> (r: i32)
        ensures
            r == clamp(value as int, i32::MIN as int, i32::MAX as int),
    {
        if value > i32::MAX as i64 {
            i32::MAX
        } else if value < i32::MIN as i64 {
            i32::MIN
        } else {
            value as i32
        }
    }
}

impl SaturatingFrom<i128> for i32 {
    fn saturating_from(value: i128) -> (r: i32)
        ensures
            r == clamp(value as int, i32::MIN as int, i32::MAX as int),
    {
        if value > i32::MAX as i128 {
            i32::MAX
        } else if value < i32::MIN as i128 {
            i32::MIN
        } else {
            value as i32
        }
    }
}

impl SaturatingFrom<isize> for i32 {
    fn saturating_from(value: isize) -> (r: i32)
        ensures
            r == clamp(value as int, i32::MIN as int, i32::MAX as int),
    {
        if (value as i128) > (i32::MAX as i128) {
            i32::MAX
        } else if (value as i128) < (i32::MIN as i128) {
            i32::MIN
        } else {
            value as i32
        }
    }
}

impl SaturatingFrom<bool> for i64 {
    fn saturating_from(value: bool) -> (r: i64)
        ensures
            r == (if value { 1int } else { 0int }),
    {
        if value {
            1
        } else {
            0
        }
    }
}

impl SaturatingFrom<u8> for i64 {
    fn saturating_from(value: u8) -> (r: i64)
        ensures
            r == value,
    {
        value as i64
    }
}

impl SaturatingFrom<u16> for i64 {
    fn saturating_from(value: u16) -> (r: i64)
        ensures
            r == value,
    {
        value as i64
    }
}

impl SaturatingFrom<u32> for i64 {
    fn saturating_from(value: u32) -> (r: i64)
        ensures
            r == value,
    {
        value as i64
    }
}

impl SaturatingFrom<u64> for i64 {
    fn saturating_from(value: u64) -> (r: i64)
        ensures
            r == clamp(value as int, i64::MIN as int, i64::MAX as int),
    {
        if value > i64::MAX as u64 {
            i64::MAX
        } else {
            value as i64
        }
    }
}

impl SaturatingFrom<u128> for i64 {
    fn saturating_from(value: u128) -> (r: i64)
        ensures
            r == clamp(value as int, i64::MIN as int, i64::MAX as int),
    {
        if value > i64::MAX as u128 {
            i64::MAX
        } else {
            value as i64
        }
    }
}

impl SaturatingFrom<usize> for i64 {
    fn saturating_from(value: usize) -> (r: i64)
        ensures
            r == clamp(value as int, i64::MIN as int, i64::MAX as int),
    {
        if (value as u128) > (i64::MAX as u128) {
            i64::MAX
        } else {
            value as i64
        }
    }
}

impl SaturatingFrom<i8> for i64 {
    fn saturating_from(value: i8) -> (r: i64)
        ensures
            r == value,
    {
        value as i64
    }
}

impl SaturatingFrom<i16> for i64 {
    fn saturating_from(value: i16) -> (r: i64)
        ensures
            r == value,
    {
        value as i64
    }
}

impl SaturatingFrom<i32> for i64 {
    fn saturating_from(value: i32) -> (r: i64)
        ensures
            r == value,
    {
        value as i64
    }
}

impl SaturatingFrom<i64> for i64 {
    fn saturating_from(value: i64) -> (r: i64)
        ensures
            r == value,
    {
        value
    }
}

impl SaturatingFrom<i128> for i64 {
    fn saturating_from(value: i128) -> (r: i64)
        ensures
            r == clamp(value as int, i64::MIN as int, i64::MAX as int),
    {
        if value > i64::MAX as i128 {
            i64::MAX
        } else if value < i64::MIN as i128 {
            i64::MIN
        } else {
            value as i64
        }
    }
}

impl SaturatingFrom<isize> for i64 {
    fn saturating_from(value: isize) -> (r: i64)
        ensures
            r == value,
    {
        value as i64
    }
}

impl SaturatingFrom<bool> for i128 {
    fn saturating_from(value: bool) -> (r: i128)
        ensures
            r == (if value { 1int } else { 0int }),
    {
        if value {
            1
        } else {
            0
        }
    }
}

impl SaturatingFrom<u8> for i128 {
    fn saturating_from(value: u8) -> (r: i128)
        ensures
            r == value,
    {
        value as i128
    }
}

impl SaturatingFrom<u16> for i128 {
    fn saturating_from(value: u16) -> (r: i128)
        ensures
            r == value,
    {
        value as i128
    }
}

impl SaturatingFrom<u32> for i128 {
    fn saturating_from(value: u32) -> (r: i128)
        ensures
            r == value,
    {
        value as i128
    }
}

impl SaturatingFrom<u64> for i128 {
    fn saturating_from(value: u64) -> (r: i128)
        ensures
            r == value,
    {
        value as i128
    }
}

impl SaturatingFrom<u128> for i128 {
    fn saturating_from(value: u128) -> (r: i128)
        ensures
            r == clamp(value as int, i128::MIN as int, i128::MAX as int),
    {
        if value > i128::MAX as u128 {
            i128::MAX
        } else {
            value as i128
        }
    }
}

impl SaturatingFrom<usize> for i128 {
    fn saturating_from(value: usize) -> (r: i128)
        ensures
            r == value,
    {
        value as i128
    }
}

impl SaturatingFrom<i8> for i128 {
    fn saturating_from(value: i8) -> (r: i128)
        ensures
            r == value,
    {
        value as i128
    }
}

impl SaturatingFrom<i16> for i128 {
    fn saturating_from(value: i16) -> (r: i128)
        ensures
            r == value,
    {
        value as i128
    }
}

impl SaturatingFrom<i32> for i128 {
    fn saturating_from(value: i32) -> (r: i128)
        ensures
            r == value,
    {
        value as i128
    }
}

impl SaturatingFrom<i64> for i128 {
    fn saturating_from(value: i64) -> (r: i128)
        ensures
            r == value,
    {
        value as i128
    }
}

impl SaturatingFrom<i128> for i128 {
    fn saturating_from(value: i128) -> (r: i128)
        ensures
            r == value,
    {
        value
    }
}

impl SaturatingFrom<isize> for i128 {
    fn saturating_from(value: isize) -> (r: i128)
        ensures
            r == value,
    {
        value as i128
    }
}

} // verus!
