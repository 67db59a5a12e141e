//! The mathematical model behind every conversion: each primitive integer
//! type, and `bool` as the integers 0 and 1, is read as a bounded range of
//! mathematical integers.
use vstd::prelude::*;

verus! {

/// A primitive type whose values are the integers of one closed range.
pub trait Bounded: Sized {
    /// The integer that a value stands for (`false` is 0, `true` is 1).
    spec fn to_int(self) -> int;

    /// The smallest integer the type can hold.
    spec fn min_int() -> int;

    /// The largest integer the type can hold.
    spec fn max_int() -> int;

    /// The value that stands for `i`, where `i` lies in the type's range.
    spec fn from_int(i: int) -> Self;

    /// Every type's range holds zero and at least one positive integer.
    proof fn lemma_bounds()
        ensures
            Self::min_int() <= 0 < Self::max_int(),
    ;

    /// Every value lies in the range, and reading it back gives the value.
    proof fn lemma_in_range(self)
        ensures
            Self::min_int() <= self.to_int() <= Self::max_int(),
            Self::from_int(self.to_int()) == self,
    ;

    /// Every integer of the range is held exactly.
    proof fn lemma_from_int(i: int)
        requires
            Self::min_int() <= i <= Self::max_int(),
        ensures
            Self::from_int(i).to_int() == i,
    ;
}

/// `x` moved into the closed range `[lo, hi]`.
pub open spec fn clamp(x: int, lo: int, hi: int) -> int {
    if x < lo {
        lo
    } else if x > hi {
        hi
    } else {
        x
    }
}

/// The value of `D` that a value `v` of `S` saturates to: `v` moved into the
/// range of `D`.
pub open spec fn converted<S: Bounded, D: Bounded>(v: S) -> D {
    D::from_int(clamp(v.to_int(), D::min_int(), D::max_int()))
}

impl Bounded for bool {
    open spec fn to_int(self) -> int {
        if self {
            1
        } else {
            0
        }
    }

    open spec fn min_int() -> int {
        0
    }

    open spec fn max_int() -> int {
        1
    }

    open spec fn from_int(i: int) -> bool {
        i > 0
    }

    proof fn lemma_bounds() {
    }

    proof fn lemma_in_range(self) {
    }

    proof fn lemma_from_int(i: int) {
    }
}

impl Bounded for u8 {
    open spec fn to_int(self) -> int {
        self as int
    }

    open spec fn min_int() -> int {
        u8::MIN as int
    }

    open spec fn max_int() -> int {
        u8::MAX as int
    }

    open spec fn from_int(i: int) -> u8 {
        i as u8
    }

    proof fn lemma_bounds() {
    }

    proof fn lemma_in_range(self) {
    }

    proof fn lemma_from_int(i: int) {
    }
}

impl Bounded for u16 {
    open spec fn to_int(self) -> int {
        self as int
    }

    open spec fn min_int() -> int {
        u16::MIN as int
    }

    open spec fn max_int() -> int {
        u16::MAX as int
    }

    open spec fn from_int(i: int) -> u16 {
        i as u16
    }

    proof fn lemma_bounds() {
    }

    proof fn lemma_in_range(self) {
    }

    proof fn lemma_from_int(i: int) {
    }
}

impl Bounded for u32 {
    open spec fn to_int(self) -> int {
        self as int
    }

    open spec fn min_int() -> int {
        u32::MIN as int
    }

    open spec fn max_int() -> int {
        u32::MAX as int
    }

    open spec fn from_int(i: int) -> u32 {
        i as u32
    }

    proof fn lemma_bounds() {
    }

    proof fn lemma_in_range(self) {
    }

    proof fn lemma_from_int(i: int) {
    }
}

impl Bounded for u64 {
    open spec fn to_int(self) -> int {
        self as int
    }

    open spec fn min_int() -> int {
        u64::MIN as int
    }

    open spec fn max_int() -> int {
        u64::MAX as int
    }

    open spec fn from_int(i: int) -> u64 {
        i as u64
    }

    proof fn lemma_bounds() {
    }

    proof fn lemma_in_range(self) {
    }

    proof fn lemma_from_int(i: int) {
    }
}

impl Bounded for u128 {
    open spec fn to_int(self) -> int {
        self as int
    }

    open spec fn min_int() -> int {
        u128::MIN as int
    }

    open spec fn max_int() -> int {
        u128::MAX as int
    }

    open spec fn from_int(i: int) -> u128 {
        i as u128
    }

    proof fn lemma_bounds() {
    }

    proof fn lemma_in_range(self) {
    }

    proof fn lemma_from_int(i: int) {
    }
}

impl Bounded for usize {
    open spec fn to_int(self) -> int {
        self as int
    }

    open spec fn min_int() -> int {
        usize::MIN as int
    }

    open spec fn max_int() -> int {
        usize::MAX as int
    }

    open spec fn from_int(i: int) -> usize {
        i as usize
    }

    proof fn lemma_bounds() {
    }

    proof fn lemma_in_range(self) {
    }

    proof fn lemma_from_int(i: int) {
    }
}

impl Bounded for i8 {
    open spec fn to_int(self) -> int {
        self as int
    }

    open spec fn min_int() -> int {
        i8::MIN as int
    }

    open spec fn max_int() -> int {
        i8::MAX as int
    }

    open spec fn from_int(i: int) -> i8 {
        i as i8
    }

    proof fn lemma_bounds() {
    }

    proof fn lemma_in_range(self) {
    }

    proof fn lemma_from_int(i: int) {
    }
}

impl Bounded for i16 {
    open spec fn to_int(self) -> int {
        self as int
    }

    open spec fn min_int() -> int {
        i16::MIN as int
    }

    open spec fn max_int() -> int {
        i16::MAX as int
    }

    open spec fn from_int(i: int) -> i16 {
        i as i16
    }

    proof fn lemma_bounds() {
    }

    proof fn lemma_in_range(self) {
    }

    proof fn lemma_from_int(i: int) {
    }
}

impl Bounded for i32 {
    open spec fn to_int(self) -> int {
        self as int
    }

    open spec fn min_int() -> int {
        i32::MIN as int
    }

    open spec fn max_int() -> int {
        i32::MAX as int
    }

    open spec fn from_int(i: int) -> i32 {
        i as i32
    }

    proof fn lemma_bounds() {
    }

    proof fn lemma_in_range(self) {
    }

    proof fn lemma_from_int(i: int) {
    }
}

impl Bounded for i64 {
    open spec fn to_int(self) -> int {
        self as int
    }

    open spec fn min_int() -> int {
        i64::MIN as int
    }

    open spec fn max_int() -> int {
        i64::MAX as int
    }

    open spec fn from_int(i: int) -> i64 {
        i as i64
    }

    proof fn lemma_bounds() {
    }

    proof fn lemma_in_range(self) {
    }

    proof fn lemma_from_int(i: int) {
    }
}

impl Bounded for i128 {
    open spec fn to_int(self) -> int {
        self as int
    }

    open spec fn min_int() -> int {
        i128::MIN as int
    }

    open spec fn max_int() -> int {
        i128::MAX as int
    }

    open spec fn from_int(i: int) -> i128 {
        i as i128
    }

    proof fn lemma_bounds() {
    }

    proof fn lemma_in_range(self) {
    }

    proof fn lemma_from_int(i: int) {
    }
}

impl Bounded for isize {
    open spec fn to_int(self) -> int {
        self as int
    }

    open spec fn min_int() -> int {
        isize::MIN as int
    }

    open spec fn max_int() -> int {
        isize::MAX as int
    }

    open spec fn from_int(i: int) -> isize {
        i as isize
    }

    proof fn lemma_bounds() {
    }

    proof fn lemma_in_range(self) {
    }

    proof fn lemma_from_int(i: int) {
    }
}

} // verus!
