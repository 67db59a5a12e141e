//! Conversions into `usize` and `isize`. Where the pointer width matters, the
//! comparisons are made in a 128-bit type, so that one body serves 16-, 32-
//! and 64-bit targets alike.
use crate::convert::SaturatingFrom;
use crate::model::clamp;
use vstd::prelude::*;

verus! {

impl SaturatingFrom<bool> for usize {
    fn saturating_from(value: bool) -> (r: usize)
        ensures
            r == (if value { 1int } else { 0int }),
    {
        if value {
            1
        } else {
            0
        }
    }
}

impl SaturatingFrom<u8> for usize {
    fn saturating_from(value: u8) -> (r: usize)
        ensures
            r == value,
    {
        value as usize
    }
}

impl SaturatingFrom<u16> for usize {
    fn saturating_from(value: u16) -> (r: usize)
        ensures
            r == value,
    {
        value as usize
    }
}

impl SaturatingFrom<u32> for usize {
    fn saturating_from(value: u32) -> (r: usize)
        ensures
            r == clamp(value as int, usize::MIN as int, usize::MAX as int),
    {
        if (value as u128) > (usize::MAX as u128) {
            usize::MAX
        } else {
            value as usize
        }
    }
}

impl SaturatingFrom<u64> for usize {
    fn saturating_from(value: u64) -> (r: usize)
        ensures
            r == clamp(value as int, usize::MIN as int, usize::MAX as int),
    {
        if value > usize::MAX as u64 {
            usize::MAX
        } else {
            value as usize
        }
    }
}

impl SaturatingFrom<u128> for usize {
    fn saturating_from(value: u128) -> (r: usize)
        ensures
            r == clamp(value as int, usize::MIN as int, usize::MAX as int),
    {
        if value > usize::MAX as u128 {
            usize::MAX
        } else {
            value as usize
        }
    }
}

impl SaturatingFrom<usize> for usize {
    fn saturating_from(value: usize) -> (r: usize)
        ensures
            r == value,
    {
        value
    }
}

impl SaturatingFrom<i8> for usize {
    fn saturating_from(value: i8) -> (r: usize)
        ensures
            r == clamp(value as int, usize::MIN as int, usize::MAX as int),
    {
        if value < 0 {
            usize::MIN
        } else {
            value as usize
        }
    }
}

impl SaturatingFrom<i16> for usize {
    fn saturating_from(value: i16) -> (r: usize)
        ensures
            r == clamp(value as int, usize::MIN as int, usize::MAX as int),
    {
        if value < 0 {
            usize::MIN
        } else {
            value as usize
        }
    }
}

impl SaturatingFrom<i32> for usize {
    fn saturating_from(value: i32) -> (r: usize)
        ensures
            r == clamp(value as int, usize::MIN as int, usize::MAX as int),
    {
        if (value as i128) > (usize::MAX as i128) {
            usize::MAX
        } else if value < 0 {
            usize::MIN
        } else {
            value as usize
        }
    }
}

impl SaturatingFrom<i64> for usize {
    fn saturating_from(value: i64) -> (r: usize)
        ensures
            r == clamp(value as int, usize::MIN as int, usize::MAX as int),
    {
        if (value as i128) > (usize::MAX as i128) {
            usize::MAX
        } else if value < 0 {
            usize::MIN
        } else {
            value as usize
        }
    }
}

impl SaturatingFrom<i128> for usize {
    fn saturating_from(value: i128) -> (r: usize)
        ensures
            r == clamp(value as int, usize::MIN as int, usize::MAX as int),
    {
        if value > usize::MAX as i128 {
            usize::MAX
        } else if value < 0 {
            usize::MIN
        } else {
            value as usize
        }
    }
}

impl SaturatingFrom<isize> for usize {
    fn saturating_from(value: isize) -> (r: usize)
        ensures
            r == clamp(value as int, usize::MIN as int, usize::MAX as int),
    {
        if value < 0 {
            usize::MIN
        } else {
            value as usize
        }
    }
}

impl SaturatingFrom<bool> for isize {
    fn saturating_from(value: bool) -> (r: isize)
        ensures
            r == (if value { 1int } else { 0int }),
    {
        if value {
            1
        } else {
            0
        }
    }
}

impl SaturatingFrom<u8> for isize {
    fn saturating_from(value: u8) -> (r: isize)
        ensures
            r == value,
    {
        value as isize
    }
}

impl SaturatingFrom<u16> for isize {
    fn saturating_from(value: u16) -> (r: isize)
        ensures
            r == clamp(value as int, isize::MIN as int, isize::MAX as int),
    {
        if (value as u128) > (isize::MAX as u128) {
            isize::MAX
        } else {
            value as isize
        }
    }
}

impl SaturatingFrom<u32> for isize {
    fn saturating_from(value: u32) -> (r: isize)
        ensures
            r == clamp(value as int, isize::MIN as int, isize::MAX as int),
    {
        if (value as u128) > (isize::MAX as u128) {
            isize::MAX
        } else {
            value as isize
        }
    }
}

impl SaturatingFrom<u64> for isize {
    fn saturating_from(value: u64) -> (r: isize)
        ensures
            r == clamp(value as int, isize::MIN as int, isize::MAX as int),
    {
        if value > isize::MAX as u64 {
            isize::MAX
        } else {
            value as isize
        }
    }
}

impl SaturatingFrom<u128> for isize {
    fn saturating_from(value: u128) -> (r: isize)
        ensures
            r == clamp(value as int, isize::MIN as int, isize::MAX as int),
    {
        if value > isize::MAX as u128 {
            isize::MAX
        } else {
            value as isize
        }
    }
}

impl SaturatingFrom<usize> for isize {
    fn saturating_from(value: usize) -> (r: isize)
        ensures
            r == clamp(value as int, isize::MIN as int, isize::MAX as int),
    {
        if (value as u128) > (isize::MAX as u128) {
            isize::MAX
        } else {
            value as isize
        }
    }
}

impl SaturatingFrom<i8> for isize {
    fn saturating_from(value: i8) -> (r: isize)
        ensures
            r == value,
    {
        value as isize
    }
}

impl SaturatingFrom<i16> for isize {
    fn saturating_from(value: i16) -> (r: isize)
        ensures
            r == value,
    {
        value as isize
    }
}

impl SaturatingFrom<i32> for isize {
    fn saturating_from(value: i32) -> (r: isize)
        ensures
            r == clamp(value as int, isize::MIN as int, isize::MAX as int),
    {
        if (value as i128) > (isize::MAX as i128) {
            isize::MAX
        } else if (value as i128) < (isize::MIN as i128) {
            isize::MIN
        } else {
            value as isize
        }
    }
}

impl SaturatingFrom<i64> for isize {
    fn saturating_from(value: i64) -> (r: isize)
        ensures
            r == clamp(value as int, isize::MIN as int, isize::MAX as int),
    {
        if value > isize::MAX as i64 {
            isize::MAX
        } else if value < isize::MIN as i64 {
            isize::MIN
        } else {
            value as isize
        }
    }
}

impl SaturatingFrom<i128> for isize {
    fn saturating_from(value: i128) -> (r: isize)
        ensures
            r == clamp(value as int, isize::MIN as int, isize::MAX as int),
    {
        if value > isize::MAX as i128 {
            isize::MAX
        } else if value < isize::MIN as i128 {
            isize::MIN
        } else {
            value as isize
        }
    }
}

impl SaturatingFrom<isize> for isize {
    fn saturating_from(value: isize) -> (r: isize)
        ensures
            r == value,
    {
        value
    }
}

} // verus!
