//! The calls into `std::cell` that the cell policies make. A cell can change
//! behind a shared reference, which specifications treat as a fixed value, so
//! these wrappers promise nothing about the value held.
use vstd::prelude::*;

verus! {

#[verifier::external_type_specification]
#[verifier::external_body]
#[verifier::reject_recursive_types(T)]
pub struct ExCell<T: ?Sized>(core::cell::Cell<T>);

#[verifier::external_type_specification]
#[verifier::external_body]
#[verifier::reject_recursive_types(T)]
pub struct ExRefCell<T: ?Sized>(core::cell::RefCell<T>);

#[verifier::external_type_specification]
#[verifier::external_body]
#[verifier::reject_recursive_types(T)]
pub struct ExUnsafeCell<T: ?Sized>(core::cell::UnsafeCell<T>);

/// Relies on `Cell::new`, which moves the value into a new cell.
#[verifier::external_body]
pub(crate) fn cell_new<T>(value: T) -> core::cell::Cell<T> {
    core::cell::Cell::new(value)
}

/// Relies on `Cell::into_inner`, which moves the value out of the cell.
#[verifier::external_body]
pub(crate) fn cell_into_inner<T>(cell: core::cell::Cell<T>) -> T {
    cell.into_inner()
}

/// Relies on `Cell::get_mut`, which borrows the value held.
#[verifier::external_body]
pub(crate) fn cell_get_mut<T>(cell: &mut core::cell::Cell<T>) -> &mut T {
    cell.get_mut()
}

/// Relies on `Cell::get`, which copies the value held out.
#[verifier::external_body]
pub(crate) fn cell_get<T: Copy>(cell: &core::cell::Cell<T>) -> T {
    cell.get()
}

/// Relies on `Cell::set`, which replaces the value held.
#[verifier::external_body]
pub(crate) fn cell_set<T>(cell: &core::cell::Cell<T>, value: T) {
    cell.set(value)
}

/// Relies on `UnsafeCell::new`, which moves the value into a new cell.
#[verifier::external_body]
pub(crate) fn unsafe_cell_new<T>(value: T) -> core::cell::UnsafeCell<T> {
    core::cell::UnsafeCell::new(value)
}

/// Relies on `UnsafeCell::into_inner`, which moves the value out of the cell.
#[verifier::external_body]
pub(crate) fn unsafe_cell_into_inner<T>(cell: core::cell::UnsafeCell<T>) -> T {
    cell.into_inner()
}

/// Relies on `UnsafeCell::get_mut`, which borrows the value held.
#[verifier::external_body]
pub(crate) fn unsafe_cell_get_mut<T>(cell: &mut core::cell::UnsafeCell<T>) -> &mut T {
    cell.get_mut()
}

/// Relies on `RefCell::new`, which moves the value into a new cell.
#[verifier::external_body]
pub(crate) fn ref_cell_new<T>(value: T) -> core::cell::RefCell<T> {
    core::cell::RefCell::new(value)
}

/// Relies on `RefCell::into_inner`, which moves the value out of the cell.
#[verifier::external_body]
pub(crate) fn ref_cell_into_inner<T>(cell: core::cell::RefCell<T>) -> T {
    cell.into_inner()
}

/// Relies on `RefCell::get_mut`, which borrows the value held without a
/// run-time check.
#[verifier::external_body]
pub(crate) fn ref_cell_get_mut<T>(cell: &mut core::cell::RefCell<T>) -> &mut T {
    cell.get_mut()
}

/// Relies on `RefCell::try_borrow`, which returns an error instead of
/// panicking while the value is mutably borrowed; the value borrowed is
/// cloned out.
#[verifier::external_body]
pub(crate) fn ref_cell_try_clone<T: Clone>(cell: &core::cell::RefCell<T>) -> Option<T> {
    match cell.try_borrow() {
        Ok(held) => Some(held.clone()),
        Err(_) => None,
    }
}

/// Relies on `RefCell::try_borrow_mut`, which returns an error instead of
/// panicking while the value is borrowed; on success the value held is
/// replaced, on failure `value` is handed back.
#[verifier::external_body]
pub(crate) fn ref_cell_try_replace<T>(cell: &core::cell::RefCell<T>, value: T) -> (r: Result<
    (),
    T,
>)
    ensures
        r matches Err(back) ==> back == value,
{
    match cell.try_borrow_mut() {
        Ok(mut held) => {
            *held = value;
            Ok(())
        },
        Err(_) => Err(value),
    }
}

} // verus!
