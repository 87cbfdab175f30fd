use std::cell::{Cell, RefCell, UnsafeCell};

use in_ex_mut::in_ex_mut::{
    CellFamily, CloneInner, CopyInner, IdentityFamily, MutFamily, RefCellFamily, SetInner,
    UnsafeCellFamily,
};
use in_ex_mut::refs::SomeRef;

#[test]
fn identity_round_trip() {
    let w: u32 = IdentityFamily::new(17u32);
    let back: u32 = <IdentityFamily as MutFamily<u32>>::into_inner(w);
    assert_eq!(back, 17);
}

#[test]
fn unsafe_cell_round_trip() {
    let w: UnsafeCell<String> = UnsafeCellFamily::new(String::from("abc"));
    let back: String = <UnsafeCellFamily as MutFamily<String>>::into_inner(w);
    assert_eq!(back, "abc");
}

#[test]
fn cell_round_trip() {
    let w: Cell<i64> = CellFamily::new(-4i64);
    let back: i64 = <CellFamily as MutFamily<i64>>::into_inner(w);
    assert_eq!(back, -4);
}

#[test]
fn ref_cell_round_trip() {
    let w: RefCell<Vec<u8>> = RefCellFamily::new(vec![1u8, 2, 3]);
    let back: Vec<u8> = <RefCellFamily as MutFamily<Vec<u8>>>::into_inner(w);
    assert_eq!(back, vec![1, 2, 3]);
}

#[test]
fn get_mut_writes_through_every_policy() {
    let mut a: u8 = IdentityFamily::new(1u8);
    *<IdentityFamily as MutFamily<u8>>::get_mut(&mut a) = 2;
    assert_eq!(a, 2);

    let mut b: UnsafeCell<u8> = UnsafeCellFamily::new(1u8);
    *<UnsafeCellFamily as MutFamily<u8>>::get_mut(&mut b) = 3;
    assert_eq!(b.into_inner(), 3);

    let mut c: Cell<u8> = CellFamily::new(1u8);
    *<CellFamily as MutFamily<u8>>::get_mut(&mut c) = 4;
    assert_eq!(c.get(), 4);

    let mut d: RefCell<u8> = RefCellFamily::new(1u8);
    *<RefCellFamily as MutFamily<u8>>::get_mut(&mut d) = 5;
    assert_eq!(*d.borrow(), 5);
}

#[test]
fn identity_set_then_read() {
    let mut w: u32 = IdentityFamily::new(1u32);
    assert_eq!(<IdentityFamily as SetInner<u32>>::set(&mut w, 2), Ok(()));
    assert_eq!(<IdentityFamily as CopyInner<u32>>::copy_inner(&w), Some(2));
    assert_eq!(<IdentityFamily as CloneInner<u32>>::clone_inner(&w), Some(2));
    assert_eq!(*<IdentityFamily as MutFamily<u32>>::get_mut(&mut w), 2);

    let r = <IdentityFamily as SetInner<u32>>::set_via_someref(SomeRef::from_mut(&mut w), 3);
    assert_eq!(r, Ok(()));
    assert_eq!(w, 3);
}

#[test]
fn cell_set_then_read() {
    let mut w: Cell<u32> = CellFamily::new(1u32);
    assert_eq!(<CellFamily as SetInner<u32>>::set(&w, 2), Ok(()));
    assert_eq!(<CellFamily as CopyInner<u32>>::copy_inner(&w), Some(2));
    assert_eq!(*<CellFamily as MutFamily<u32>>::get_mut(&mut w), 2);

    let r = <CellFamily as SetInner<u32>>::set_via_someref(SomeRef::from_shared(&w), 7);
    assert_eq!(r, Ok(()));
    assert_eq!(w.get(), 7);
}

#[test]
fn ref_cell_set_then_read() {
    let mut w: RefCell<String> = RefCellFamily::new(String::from("old"));
    assert_eq!(<RefCellFamily as SetInner<String>>::set(&w, String::from("new")), Ok(()));
    assert_eq!(
        <RefCellFamily as CloneInner<String>>::clone_inner(&w),
        Some(String::from("new"))
    );
    assert_eq!(*<RefCellFamily as MutFamily<String>>::get_mut(&mut w), "new");

    let n: RefCell<i32> = RefCellFamily::new(1i32);
    let r = <RefCellFamily as SetInner<i32>>::set_via_someref(SomeRef::from_shared(&n), 8);
    assert_eq!(r, Ok(()));
    assert_eq!(<RefCellFamily as CopyInner<i32>>::copy_inner(&n), Some(8));
}

#[test]
fn ref_cell_refuses_read_during_exclusive_borrow() {
    let w: RefCell<i32> = RefCellFamily::new(5i32);
    {
        let held = w.borrow_mut();
        assert_eq!(<RefCellFamily as CopyInner<i32>>::copy_inner(&w), None);
        assert_eq!(<RefCellFamily as CloneInner<i32>>::clone_inner(&w), None);
        drop(held);
    }
    assert_eq!(<RefCellFamily as CopyInner<i32>>::copy_inner(&w), Some(5));
}

#[test]
fn ref_cell_refuses_write_during_shared_borrow() {
    let w: RefCell<i32> = RefCellFamily::new(5i32);
    {
        let held = w.borrow();
        assert_eq!(<RefCellFamily as SetInner<i32>>::set(&w, 6), Err(6));
        assert_eq!(*held, 5);
    }
    assert_eq!(<RefCellFamily as SetInner<i32>>::set(&w, 6), Ok(()));
    assert_eq!(<RefCellFamily as CopyInner<i32>>::copy_inner(&w), Some(6));
}

#[test]
fn clone_inner_clones_a_non_copy_value() {
    let v: Vec<String> = vec![String::from("x"), String::from("y")];
    let w: Vec<String> = IdentityFamily::new(v.clone());
    assert_eq!(<IdentityFamily as CloneInner<Vec<String>>>::clone_inner(&w), Some(v.clone()));
    let c: RefCell<Vec<String>> = RefCellFamily::new(v.clone());
    assert_eq!(<RefCellFamily as CloneInner<Vec<String>>>::clone_inner(&c), Some(v));
}

#[test]
fn set_takes_a_someref_of_the_required_kind() {
    let mut w: u32 = IdentityFamily::new(1u32);
    assert_eq!(<IdentityFamily as SetInner<u32>>::set(SomeRef::from_mut(&mut w), 4), Ok(()));
    assert_eq!(w, 4);

    let c: Cell<u32> = CellFamily::new(1u32);
    assert_eq!(<CellFamily as SetInner<u32>>::set(SomeRef::from_shared(&c), 5), Ok(()));
    assert_eq!(c.get(), 5);
}
