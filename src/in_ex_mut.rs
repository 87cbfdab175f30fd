use vstd::prelude::*;

use crate::cells::{
    cell_get, cell_get_mut, cell_into_inner, cell_new, cell_set, ref_cell_get_mut, ref_cell_into_inner,
    ref_cell_new, ref_cell_try_clone, ref_cell_try_replace, unsafe_cell_get_mut, unsafe_cell_into_inner,
    unsafe_cell_new,
};
use crate::refs::{MutRefFamily, Ref, RefMutFamily, SharedRefFamily, SomeRef};

verus! {

/// The policy of no wrapper at all: the value is held as it is, and only an
/// exclusive reference may change it.
pub struct IdentityFamily;

/// The policy of [`core::cell::UnsafeCell`]: no run-time check, and the
/// caller alone keeps accesses apart.
pub struct UnsafeCellFamily;

/// The policy of [`core::cell::Cell`]: the value may be replaced through a
/// shared reference and read out by copy.
pub struct CellFamily;

/// The policy of [`core::cell::RefCell`]: the value may be read or replaced
/// through a shared reference, and a borrow that conflicts with one still
/// alive is refused at run time.
pub struct RefCellFamily;

/// A way of holding a value of type `T`: plain, or in one of `std::cell`'s
/// wrappers.
pub trait MutFamily<T>: Sized {
    /// How a `T` is held under this policy.
    type Target;

    /// The kind of reference to a [`MutFamily::Target`] through which the
    /// value may be changed, given exclusive use of it by other means.
    type RefMutFamilyAllowingMutationUnsafely: RefMutFamily;

    /// Whether specifications see the held value through
    /// [`MutFamily::inner`]. A `std::cell` wrapper can change behind a shared
    /// reference, so its value is hidden from them.
    spec fn is_transparent() -> bool;

    /// The value held, where [`MutFamily::is_transparent`].
    spec fn inner(target: Self::Target) -> T;

    /// Whether the policy tracks borrows at run time and refuses an access
    /// that conflicts with a borrow still alive.
    spec fn is_checked() -> bool;

    /// Wraps `value`.
    fn new(value: T) -> (r: Self::Target)
        ensures
            Self::is_transparent() ==> Self::inner(r) == value,
    ;

    /// Unwraps the value held.
    fn into_inner(target: Self::Target) -> (r: T)
        ensures
            Self::is_transparent() ==> r == Self::inner(target),
    ;

    /// An exclusive reference to the value held.
    fn get_mut(mut_ref: &mut Self::Target) -> (r: &mut T)
        ensures
            Self::is_transparent() ==> *r == Self::inner(*old(mut_ref)) && *final(r) == Self::inner(
                *final(mut_ref),
            ),
    ;
}

impl<T> MutFamily<T> for IdentityFamily {
    type Target = T;

    type RefMutFamilyAllowingMutationUnsafely = MutRefFamily;

    open spec fn is_transparent() -> bool {
        true
    }

    open spec fn inner(target: T) -> T {
        target
    }

    open spec fn is_checked() -> bool {
        false
    }

    fn new(value: T) -> (r: T) {
        value
    }

    fn into_inner(target: T) -> (r: T) {
        target
    }

    fn get_mut(mut_ref: &mut T) -> (r: &mut T) {
        mut_ref
    }
}


impl<T> MutFamily<T> for UnsafeCellFamily {
    type Target = core::cell::UnsafeCell<T>;

    type RefMutFamilyAllowingMutationUnsafely = SharedRefFamily;

    open spec fn is_transparent() -> bool {
        false
    }

    open spec fn inner(target: core::cell::UnsafeCell<T>) -> T {
        arbitrary()
    }

    open spec fn is_checked() -> bool {
        false
    }

    fn new(value: T) -> (r: core::cell::UnsafeCell<T>) {
        unsafe_cell_new(value)
    }

    fn into_inner(target: core::cell::UnsafeCell<T>) -> (r: T) {
        unsafe_cell_into_inner(target)
    }

    fn get_mut(mut_ref: &mut core::cell::UnsafeCell<T>) -> (r: &mut T) {
        unsafe_cell_get_mut(mut_ref)
    }
}

impl<T> MutFamily<T> for CellFamily {
    type Target = core::cell::Cell<T>;

    type RefMutFamilyAllowingMutationUnsafely = SharedRefFamily;

    open spec fn is_transparent() -> bool {
        false
    }

    open spec fn inner(target: core::cell::Cell<T>) -> T {
        arbitrary()
    }

    open spec fn is_checked() -> bool {
        false
    }

    fn new(value: T) -> (r: core::cell::Cell<T>) {
        cell_new(value)
    }

    fn into_inner(target: core::cell::Cell<T>) -> (r: T) {
        cell_into_inner(target)
    }

    fn get_mut(mut_ref: &mut core::cell::Cell<T>) -> (r: &mut T) {
        cell_get_mut(mut_ref)
    }
}

impl<T> MutFamily<T> for RefCellFamily {
    type Target = core::cell::RefCell<T>;

    type RefMutFamilyAllowingMutationUnsafely = SharedRefFamily;

    open spec fn is_transparent() -> bool {
        false
    }

    open spec fn inner(target: core::cell::RefCell<T>) -> T {
        arbitrary()
    }

    open spec fn is_checked() -> bool {
        true
    }

    fn new(value: T) -> (r: core::cell::RefCell<T>) {
        ref_cell_new(value)
    }

    fn into_inner(target: core::cell::RefCell<T>) -> (r: T) {
        ref_cell_into_inner(target)
    }

    fn get_mut(mut_ref: &mut core::cell::RefCell<T>) -> (r: &mut T) {
        ref_cell_get_mut(mut_ref)
    }
}

/// A policy under which a held value of a `Copy` type can be copied out
/// through a shared reference.
pub trait CopyInner<T: Copy>: MutFamily<T> {
    /// A copy of the value held, or `None` where the policy refuses the read
    /// because the value is mutably borrowed.
    fn copy_inner(ref_: &Self::Target) -> (r: Option<T>)
        ensures
            !Self::is_checked() ==> r is Some,
            Self::is_transparent() ==> r == Some(Self::inner(*ref_)),
    ;
}

/// A policy under which a clone of the held value can be made through a
/// shared reference.
pub trait CloneInner<T: Clone>: MutFamily<T> {
    /// A clone of the value held, or `None` where the policy refuses the read
    /// because the value is mutably borrowed.
    fn clone_inner(ref_: &Self::Target) -> (r: Option<T>)
        ensures
            !Self::is_checked() ==> r is Some,
            Self::is_transparent() ==> (r matches Some(v) && cloned(Self::inner(*ref_), v)),
    ;
}

/// A policy under which the held value can be replaced through a reference
/// of kind [`SetInner::RefMutFamilyAllowingMutation`].
pub trait SetInner<T>: MutFamily<T> {
    /// The kind of reference through which the held value may be replaced.
    type RefMutFamilyAllowingMutation: RefMutFamily;

    /// Replaces the held value by `value`. Where the policy refuses because
    /// the value is borrowed, `value` is handed back and nothing changes.
    fn set_via_someref<'a>(
        someref: SomeRef<'a, Self::Target, Self::RefMutFamilyAllowingMutation>,
        value: T,
    ) -> (r: Result<(), T>)
        ensures
            !Self::is_checked() ==> r is Ok,
            r matches Err(back) ==> back == value,
            Self::is_transparent() ==> (someref.exclusive() matches Some(m) ==> Self::inner(
                *final(m),
            ) == value),
    ;

    /// Replaces the held value by `value`, through a reference of any form
    /// of the required kind; as [`SetInner::set_via_someref`].
    fn set<'a, R>(ref_: R, value: T) -> (r: Result<(), T>) where
        Self::Target: 'a,
        R: Ref<'a, Self::Target, Self::RefMutFamilyAllowingMutation>,

        ensures
            !Self::is_checked() ==> r is Ok,
            r matches Err(back) ==> back == value,
            Self::is_transparent() ==> exists|
                s: SomeRef<'a, Self::Target, Self::RefMutFamilyAllowingMutation>,
            |
                call_ensures(R::into_someref, (ref_,), s) && (s.exclusive() matches Some(m)
                    ==> Self::inner(*final(m)) == value),
    {
        let someref = ref_.into_someref();
        Self::set_via_someref(someref, value)
    }
}

impl<T: Copy> CopyInner<T> for IdentityFamily {
    fn copy_inner(ref_: &T) -> (r: Option<T>) {
        Some(*ref_)
    }
}

impl<T: Copy> CopyInner<T> for CellFamily {
    fn copy_inner(ref_: &core::cell::Cell<T>) -> (r: Option<T>) {
        Some(cell_get(ref_))
    }
}

impl<T: Copy> CopyInner<T> for RefCellFamily {
    fn copy_inner(ref_: &core::cell::RefCell<T>) -> (r: Option<T>) {
        ref_cell_try_clone(ref_)
    }
}

impl<T: Clone> CloneInner<T> for IdentityFamily {
    fn clone_inner(ref_: &T) -> (r: Option<T>) {
        Some(ref_.clone())
    }
}

impl<T: Clone> CloneInner<T> for RefCellFamily {
    fn clone_inner(ref_: &core::cell::RefCell<T>) -> (r: Option<T>) {
        ref_cell_try_clone(ref_)
    }
}

impl<T> SetInner<T> for IdentityFamily {
    type RefMutFamilyAllowingMutation = MutRefFamily;

    fn set_via_someref<'a>(someref: SomeRef<'a, T, MutRefFamily>, value: T) -> (r: Result<(), T>) {
        let mut_ref: &mut T = someref.into_mut();
        *mut_ref = value;
        Ok(())
    }
}

impl<T> SetInner<T> for CellFamily {
    type RefMutFamilyAllowingMutation = SharedRefFamily;

    fn set_via_someref<'a>(someref: SomeRef<'a, core::cell::Cell<T>, SharedRefFamily>, value: T) -> (r:
        Result<(), T>) {
        let ref_: &core::cell::Cell<T> = someref.into_shared();
        cell_set(ref_, value);
        Ok(())
    }
}

impl<T> SetInner<T> for RefCellFamily {
    type RefMutFamilyAllowingMutation = SharedRefFamily;

    fn set_via_someref<'a>(
        someref: SomeRef<'a, core::cell::RefCell<T>, SharedRefFamily>,
        value: T,
    ) -> (r: Result<(), T>) {
        let ref_: &core::cell::RefCell<T> = someref.into_shared();
        ref_cell_try_replace(ref_, value)
    }
}

} // verus!
