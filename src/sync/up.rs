//! Uniprocessor interior mutability.
use std::cell::{RefCell, RefMut};
use vstd::prelude::*;

verus! {

#[verifier::external_type_specification]
#[verifier::external_body]
#[verifier::reject_recursive_types(T)]
pub struct ExRefCell<T: ?Sized>(RefCell<T>);

#[verifier::external_type_specification]
#[verifier::external_body]
#[verifier::reject_recursive_types(T)]
pub struct ExRefMut<'b, T: ?Sized + 'b>(RefMut<'b, T>);

/// Relies on `RefCell::new`, which wraps the value with no borrow taken.
pub assume_specification<T>[ RefCell::<T>::new ](value: T) -> RefCell<T>;

/// Relies on `RefCell::borrow_mut`, which hands out the only live mutable
/// borrow of the value and panics while another borrow of it is live: that
/// panic is the abort on a second access.
pub assume_specification<T: ?Sized>[ RefCell::<T>::borrow_mut ](c: &RefCell<T>) -> RefMut<'_, T>;

/// Holds a piece of kernel-global data so that it can be reached and changed
/// from trap handling without a data race.
///
/// This is sound only on a single core with no re-entrant access: every
/// access goes through [`UPSafeCell::exclusive_access`], and the handle it
/// returns must be dropped before the data is asked for again.
#[verifier::reject_recursive_types(T)]
pub struct UPSafeCell<T> {
    inner: RefCell<T>,
}

impl<T> UPSafeCell<T> {
    /// Wraps `value`. The caller guarantees that the cell is only ever used
    /// from a single core, with no re-entrant access.
    pub fn new(value: T) -> Self {
        UPSafeCell { inner: RefCell::new(value) }
    }

    /// The mutable handle on the data, released when it is dropped. Asking
    /// for it while an earlier handle is still live aborts the kernel.
    pub fn exclusive_access(&self) -> RefMut<'_, T> {
        self.inner.borrow_mut()
    }
}

} // verus!
