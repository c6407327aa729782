//! A single-threaded interior-mutability cell.
use vstd::prelude::*;

use std::cell::RefCell;

verus! {

/// `std::cell::RefCell`, declared so that a cell can stand in a field. Verus
/// sees nothing inside it.
#[verifier::external_type_specification]
#[verifier::external_body]
#[verifier::reject_recursive_types(T)]
pub struct ExRefCell<T: ?Sized>(RefCell<T>);

/// `RefCell::new`: callable on any value, and it returns. Nothing is claimed
/// of the cell it returns, since what a `RefCell` holds has no name here.
pub assume_specification<T>[ RefCell::<T>::new ](value: T) -> RefCell<T>;

/// A tiny wrapper around [`RefCell`] meant to be kept in a global of a
/// single-threaded program.
#[verifier::reject_recursive_types(T)]
pub struct LocalCell<T> {
    inner: RefCell<T>,
}

impl<T> LocalCell<T> {
    pub closed spec fn spec_inner(&self) -> RefCell<T> {
        self.inner
    }

    /// The cell that wraps `v`.
    pub closed spec fn wrap(v: RefCell<T>) -> Self {
        LocalCell { inner: v }
    }

    /// A cell that holds `value`: it wraps the cell that `RefCell::new`
    /// makes of `value`.
    pub fn new(value: T) -> (c: Self)
        ensures
            call_ensures(RefCell::<T>::new, (value,), c.spec_inner()),
    {
        LocalCell { inner: RefCell::new(value) }
    }
}

impl<T> From<RefCell<T>> for LocalCell<T> {
    fn from(value: RefCell<T>) -> (c: Self)
        ensures
            c.spec_inner() == value,
    {
        LocalCell { inner: value }
    }
}

impl<T> vstd::std_specs::convert::FromSpecImpl<RefCell<T>> for LocalCell<T> {
    open spec fn obeys_from_spec() -> bool {
        true
    }

    open spec fn from_spec(v: RefCell<T>) -> Self {
        LocalCell::<T>::wrap(v)
    }
}

impl<T> LocalCell<T> {
    /// The wrapped [`RefCell`], giving up the wrapper.
    pub fn into_inner(self) -> (r: RefCell<T>)
        ensures
            r == self.spec_inner(),
    {
        self.inner
    }
}

impl<T> std::ops::Deref for LocalCell<T> {
    type Target = RefCell<T>;

    fn deref(&self) -> (r: &RefCell<T>)
        ensures
            *r == self.spec_inner(),
    {
        &self.inner
    }
}

} // verus!
