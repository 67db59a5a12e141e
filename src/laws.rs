//! Laws that every saturating conversion obeys, proved over the model that
//! [`SaturatingFrom`](crate::SaturatingFrom) and
//! [`SaturatingInto`](crate::SaturatingInto) state their results in.
use crate::model::{clamp, converted, Bounded};
use vstd::prelude::*;

verus! {

/// The result of a conversion is `v` clamped into the destination's range.
pub proof fn lemma_converted_value<S: Bounded, D: Bounded>(v: S)
    ensures
        converted::<S, D>(v).to_int() == clamp(v.to_int(), D::min_int(), D::max_int()),
{
    D::lemma_bounds();
    D::lemma_from_int(clamp(v.to_int(), D::min_int(), D::max_int()));
}

/// Converting a value to its own type gives the value back.
pub proof fn lemma_identity<T: Bounded>(v: T)
    ensures
        converted::<T, T>(v) == v,
{
    v.lemma_in_range();
}

/// A conversion never leaves the destination's range: it lies between the
/// destination's minimum and maximum, whatever the source value.
pub proof fn lemma_range_clamp<S: Bounded, D: Bounded>(v: S)
    ensures
        D::min_int() <= converted::<S, D>(v).to_int() <= D::max_int(),
{
    D::lemma_bounds();
    lemma_converted_value::<S, D>(v);
}

/// A value that the destination can hold is kept exactly.
pub proof fn lemma_exact_in_range<S: Bounded, D: Bounded>(v: S)
    requires
        D::min_int() <= v.to_int() <= D::max_int(),
    ensures
        converted::<S, D>(v).to_int() == v.to_int(),
{
    lemma_converted_value::<S, D>(v);
}

/// Conversion is non-decreasing: a smaller source value never converts to a
/// larger result.
pub proof fn lemma_monotonic<S: Bounded, D: Bounded>(v1: S, v2: S)
    requires
        v1.to_int() <= v2.to_int(),
    ensures
        converted::<S, D>(v1).to_int() <= converted::<S, D>(v2).to_int(),
{
    D::lemma_bounds();
    lemma_converted_value::<S, D>(v1);
    lemma_converted_value::<S, D>(v2);
}

/// Converting `v` into a type `M` that can hold it, and then back into the
/// type of `v`, gives `v` again.
pub proof fn lemma_round_trip<T: Bounded, M: Bounded>(v: T)
    requires
        M::min_int() <= v.to_int() <= M::max_int(),
    ensures
        converted::<M, T>(converted::<T, M>(v)) == v,
{
    let m = converted::<T, M>(v);
    lemma_exact_in_range::<T, M>(v);
    v.lemma_in_range();
    assert(m.to_int() == v.to_int());
}

/// A value converts to `true` exactly when it is greater than zero; zero and
/// every negative value give `false`.
pub proof fn lemma_bool_threshold<S: Bounded>(v: S)
    ensures
        converted::<S, bool>(v) == (v.to_int() > 0),
{
}

/// `true` converts to 1 and `false` to 0, in every integer type.
pub proof fn lemma_from_bool<D: Bounded>(b: bool)
    ensures
        converted::<bool, D>(b).to_int() == (if b { 1int } else { 0int }),
{
    lemma_converted_value::<bool, D>(b);
    D::lemma_bounds();
}

} // verus!
