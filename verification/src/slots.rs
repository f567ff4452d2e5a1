//! The array that keeps the lights in place: `pin_array::PinArray`, as far as
//! the lighting environment uses it. Nothing here is proved: each contract
//! states what the array's source shows.

use crate::light::Light;
use pin_array::PinArray;
use std::pin::Pin;
use vstd::prelude::*;

verus! {

/// `pin_array::PinArray`, a fixed array that hands out its elements without
/// moving them. Its inside is not visible here.
#[verifier::external_type_specification]
#[verifier::external_body]
#[verifier::reject_recursive_types(T)]
pub struct ExPinArray<T, const SIZE: usize>(PinArray<T, SIZE>);

/// The elements of the array, in the order of their indices.
pub uninterp spec fn slots(a: PinArray<Option<Light>, 8>) -> Seq<Option<Light>>;

/// `PinArray::default`: an array whose every element is the default of its
/// type, which for an `Option` is `None`.
#[verifier::external_body]
pub(crate) fn empty_slots() -> (a: PinArray<Option<Light>, 8>)
    ensures
        slots(a) == Seq::new(8, |i: int| None::<Light>),
{
    PinArray::default()
}

/// `PinArray::get`: the element at index `i`, or nothing where `i` is not an
/// index of the array.
#[verifier::external_body]
pub(crate) fn slot(a: &PinArray<Option<Light>, 8>, i: usize) -> (r: Option<&Option<Light>>)
    ensures
        i < 8 ==> r == Some(&slots(*a)[i as int]),
        i >= 8 ==> r is None,
{
    a.get(i)
}

/// `PinArray::get_pin`: the element at index `i`, to be changed in place, or
/// nothing where `i` is not an index of the array. What is written through
/// the result is what the array then holds at `i`; the other elements stay.
/// The call does not panic. A light holds plain values only, so the array
/// can be pinned, and the element unpinned, without a promise from the caller.
#[verifier::external_body]
pub(crate) fn slot_mut(a: &mut PinArray<Option<Light>, 8>, i: usize) -> (r: Option<
    &mut Option<Light>,
>)
    ensures
        match r {
            Some(s) => i < 8 && *s == slots(*old(a))[i as int] && slots(*final(a)) == slots(
                *old(a),
            ).update(i as int, *final(s)),
            None => i >= 8 && slots(*final(a)) == slots(*old(a)),
        },
    no_unwind
{
    match Pin::new(a).get_pin(i) {
        Some(p) => Some(p.get_mut()),
        None => None,
    }
}

} // verus!
