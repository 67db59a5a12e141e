//! Saturating conversions between the primitive integer types and `bool`.
//!
//! `T::saturating_from(v)` never fails: where `T` cannot hold `v`, the result
//! is the bound of `T` nearest to `v`. `bool` counts as the range `[0, 1]`, so
//! a value converts to `true` exactly when it is greater than zero, and `true`
//! converts to 1.
//!
//! Every conversion is stated against one model (see [`model`]): the result
//! is `converted::<S, D>(v)`, the integer of `v` clamped into the range of
//! `D`. The laws the conversions obey are proved in [`laws`].
//!
//! ```
//! use saturate::{SaturatingFrom, SaturatingInto};
//!
//! assert_eq!(0, u8::saturating_from(-26i16));
//! let m: u32 = i64::MAX.saturating_into();
//! assert_eq!(u32::MAX, m);
//! ```

pub mod convert;
pub mod laws;
pub mod model;
mod to_bool;
mod to_pointer_sized;
mod to_signed;
mod to_unsigned;

pub use convert::{SaturatingFrom, SaturatingInto};
pub use model::{clamp, converted, Bounded};
