//! Conversions: a [`Vector2`] from a 2-tuple, from a fixed 2-element array,
//! or from a single splatted value; a 2-tuple from a [`Vector2`]; and the one
//! fallible conversion of the library, from a slice, which succeeds exactly
//! when the slice has length 2.
use crate::Vector2;
use vstd::prelude::*;

verus! {

impl<T> From<(T, T)> for Vector2<T> {
    /// `(x, y)` becomes the vector with components `x` and `y`.
    fn from(value: (T, T)) -> (r: Self) {
        Vector2 { x: value.0, y: value.1 }
    }
}

impl<T> vstd::std_specs::convert::FromSpecImpl<(T, T)> for Vector2<T> {
    open spec fn obeys_from_spec() -> bool {
        true
    }

    open spec fn from_spec(value: (T, T)) -> Self {
        Vector2 { x: value.0, y: value.1 }
    }
}

impl<T: Copy> From<[T; 2]> for Vector2<T> {
    /// `[x, y]` becomes the vector with components `x` and `y`.
    fn from(value: [T; 2]) -> (r: Self) {
        Vector2 {
            x: *vstd::array::array_index_get(&value, 0),
            y: *vstd::array::array_index_get(&value, 1),
        }
    }
}

impl<T: Copy> vstd::std_specs::convert::FromSpecImpl<[T; 2]> for Vector2<T> {
    open spec fn obeys_from_spec() -> bool {
        true
    }

    open spec fn from_spec(value: [T; 2]) -> Self {
        Vector2 { x: value[0], y: value[1] }
    }
}

impl<T: Copy> From<T> for Vector2<T> {
    /// Splats the value: both components are set to it.
    fn from(value: T) -> (r: Self) {
        Vector2 { x: value, y: value }
    }
}

impl<T: Copy> vstd::std_specs::convert::FromSpecImpl<T> for Vector2<T> {
    open spec fn obeys_from_spec() -> bool {
        true
    }

    open spec fn from_spec(value: T) -> Self {
        Vector2 { x: value, y: value }
    }
}

impl<T> From<Vector2<T>> for (T, T) {
    /// Tuplifies the vector: `(x, y)`.
    fn from(value: Vector2<T>) -> (r: Self) {
        (value.x, value.y)
    }
}

impl<T> vstd::std_specs::convert::FromSpecImpl<Vector2<T>> for (T, T) {
    open spec fn obeys_from_spec() -> bool {
        true
    }

    open spec fn from_spec(value: Vector2<T>) -> Self {
        (value.x, value.y)
    }
}

impl<T: Copy> Vector2<T> {
    /// The one fallible conversion: a vector from a slice. Succeeds exactly
    /// when the slice holds two elements, which become `x` and `y`; any other
    /// length is an invalid-length error, with no further detail attached.
    pub fn try_from(value: &[T]) -> (r: Result<Self, ()>)
        ensures
            value@.len() == 2 ==> r == Ok::<Self, ()>(Vector2 { x: value@[0], y: value@[1] }),
            value@.len() != 2 ==> r == Err::<Self, ()>(()),
    {
        if value.len() == 2 {
            Ok(Vector2 { x: *vstd::slice::slice_index_get(value, 0), y: *vstd::slice::slice_index_get(value, 1) })
        } else {
            Err(())
        }
    }
}

/// Law: a tuple sent through a vector and back is unchanged, and the vector
/// built from `(x, y)` carries exactly `x` and `y`.
pub proof fn lemma_tuple_round_trip<T>(t: (T, T))
    ensures
        <(T, T) as vstd::std_specs::convert::FromSpec<Vector2<T>>>::from_spec(
            <Vector2<T> as vstd::std_specs::convert::FromSpec<(T, T)>>::from_spec(t),
        ) == t,
        <Vector2<T> as vstd::std_specs::convert::FromSpec<(T, T)>>::from_spec(t)
            == (Vector2 { x: t.0, y: t.1 }),
{
}

} // verus!
