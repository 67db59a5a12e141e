//! The two conversion traits.
use crate::model::{converted, Bounded};
use vstd::prelude::*;

verus! {

/// A saturating conversion from `T` into `Self`: the value is kept where
/// `Self` can hold it, and replaced by the nearer bound of `Self` where it
/// cannot. It is the opposite of [`SaturatingInto`].
///
/// Implement [`SaturatingFrom`]; [`SaturatingInto`] then comes with it.
pub trait SaturatingFrom<T: Bounded>: Bounded {
    /// Converts `value` to `Self`.
    fn saturating_from(value: T) -> (r: Self)
        ensures
            r == converted::<T, Self>(value),
    ;
}

/// A saturating conversion from `Self` into `T`. It is the opposite of
/// [`SaturatingFrom`], and is provided for every pair that has it.
pub trait SaturatingInto<T: Bounded>: Bounded {
    /// Converts `self` to the (usually inferred) type `T`.
    fn saturating_into(self) -> (r: T)
        ensures
            r == converted::<Self, T>(self),
    ;
}

impl<T: SaturatingFrom<U>, U: Bounded> SaturatingInto<T> for U {
    fn saturating_into(self) -> (r: T) {
        T::saturating_from(self)
    }
}

} // verus!
