//! Properties that relate several operations of the library.
use vstd::prelude::*;

use crate::in_ex_mut::{CloneInner, CopyInner, MutFamily, SetInner};
use crate::refs::{lemma_kind_tags, MutRefFamily, RefMutFamily, SharedRefFamily, SomeRef};

verus! {

/// Wrapping a value and unwrapping it again gives the value back, under
/// every policy whose held value specifications can see.
pub proof fn lemma_round_trip<T, F: MutFamily<T>>(value: T, wrapped: F::Target, back: T)
    requires
        F::is_transparent(),
        call_ensures(F::new, (value,), wrapped),
        call_ensures(F::into_inner, (wrapped,), back),
    ensures
        back == value,
{
}

/// After the held value is replaced through an exclusive reference, a copy
/// read from what the replacement left gives the new value.
pub proof fn lemma_set_then_copy<'a, T: Copy, F: SetInner<T> + CopyInner<T>>(
    someref: SomeRef<'a, F::Target, F::RefMutFamilyAllowingMutation>,
    value: T,
    result: Result<(), T>,
    read: Option<T>,
)
    requires
        F::is_transparent(),
        someref.exclusive() is Some,
        call_ensures(F::set_via_someref, (someref, value), result),
        call_ensures(F::copy_inner, (&*final(someref.exclusive()->0),), read),
    ensures
        read == Some(value),
{
}

/// After the held value is replaced through an exclusive reference, a clone
/// read from what the replacement left is a clone of the new value.
pub proof fn lemma_set_then_clone<'a, T: Clone, F: SetInner<T> + CloneInner<T>>(
    someref: SomeRef<'a, F::Target, F::RefMutFamilyAllowingMutation>,
    value: T,
    result: Result<(), T>,
    read: Option<T>,
)
    requires
        F::is_transparent(),
        someref.exclusive() is Some,
        call_ensures(F::set_via_someref, (someref, value), result),
        call_ensures(F::clone_inner, (&*final(someref.exclusive()->0),), read),
    ensures
        read matches Some(v) && cloned(value, v),
{
}

/// After the held value is replaced through an exclusive reference, an
/// exclusive reference to what the replacement left sees the new value.
pub proof fn lemma_set_then_get_mut<'a, 'b, T, F: SetInner<T>>(
    someref: SomeRef<'a, F::Target, F::RefMutFamilyAllowingMutation>,
    value: T,
    result: Result<(), T>,
    left: &'b mut F::Target,
    read: &'b mut T,
)
    requires
        F::is_transparent(),
        someref.exclusive() is Some,
        call_ensures(F::set_via_someref, (someref, value), result),
        *old(left) == *final(someref.exclusive()->0),
        call_ensures(F::get_mut, (left,), read),
    ensures
        *old(read) == value,
{
}

/// A shared reference held as a [`SomeRef`] and taken back out is the same
/// reference, and the shared kind is tagged as shared.
pub proof fn lemma_shared_kind_round_trip<'a, T>(
    shared: &'a T,
    held: SomeRef<'a, T, SharedRefFamily>,
    back: &'a T,
)
    requires
        call_ensures(SomeRef::from_shared, (shared,), held),
        call_ensures(SomeRef::into_shared, (held,), back),
    ensures
        back == shared,
        SharedRefFamily::IS_SHARED,
{
    lemma_kind_tags();
}

/// An exclusive reference held as a [`SomeRef`] and taken back out refers to
/// the same value, and what is written through it is what the first
/// reference leaves; the exclusive kind is tagged as not shared.
pub proof fn lemma_exclusive_kind_round_trip<'a, T>(
    exclusive: &'a mut T,
    held: SomeRef<'a, T, MutRefFamily>,
    back: &'a mut T,
)
    requires
        call_ensures(SomeRef::from_mut, (exclusive,), held),
        call_ensures(SomeRef::into_mut, (held,), back),
    ensures
        *old(back) == *old(exclusive),
        *final(back) == *final(exclusive),
        !MutRefFamily::IS_SHARED,
{
    lemma_kind_tags();
}

} // verus!
