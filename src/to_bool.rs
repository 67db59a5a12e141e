//! Conversions into `bool`: a value converts to `true` exactly when it is
//! greater than zero.
use crate::convert::SaturatingFrom;
use vstd::prelude::*;

verus! {

impl SaturatingFrom<bool> for bool {
    fn saturating_from(value: bool) -> (r: bool)
        ensures
            r == value,
    {
        value
    }
}

impl SaturatingFrom<u8> for bool {
    fn saturating_from(value: u8) -> (r: bool)
        ensures
            r == (value > 0),
    {
        value > 0
    }
}

impl SaturatingFrom<u16> for bool {
    fn saturating_from(value: u16) -> (r: bool)
        ensures
            r == (value > 0),
    {
        value > 0
    }
}

impl SaturatingFrom<u32> for bool {
    fn saturating_from(value: u32) -> (r: bool)
        ensures
            r == (value > 0),
    {
        value > 0
    }
}

impl SaturatingFrom<u64> for bool {
    fn saturating_from(value: u64) -> (r: bool)
        ensures
            r == (value > 0),
    {
        value > 0
    }
}

impl SaturatingFrom<u128> for bool {
    fn saturating_from(value: u128) -> (r: bool)
        ensures
            r == (value > 0),
    {
        value > 0
    }
}

impl SaturatingFrom<usize> for bool {
    fn saturating_from(value: usize) -> (r: bool)
        ensures
            r == (value > 0),
    {
        value > 0
    }
}

impl SaturatingFrom<i8> for bool {
    fn saturating_from(value: i8) -> (r: bool)
        ensures
            r == (value > 0),
    {
        value > 0
    }
}

impl SaturatingFrom<i16> for bool {
    fn saturating_from(value: i16) -> (r: bool)
        ensures
            r == (value > 0),
    {
        value > 0
    }
}

impl SaturatingFrom<i32> for bool {
    fn saturating_from(value: i32) -> (r: bool)
        ensures
            r == (value > 0),
    {
        value > 0
    }
}

impl SaturatingFrom<i64> for bool {
    fn saturating_from(value: i64) -> (r: bool)
        ensures
            r == (value > 0),
    {
        value > 0
    }
}

impl SaturatingFrom<i128> for bool {
    fn saturating_from(value: i128) -> (r: bool)
        ensures
            r == (value > 0),
    {
        value > 0
    }
}

impl SaturatingFrom<isize> for bool {
    fn saturating_from(value: isize) -> (r: bool)
        ensures
            r == (value > 0),
    {
        value > 0
    }
}

} // verus!
