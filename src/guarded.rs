//! std's interior-mutability containers, as the guarded readers use them.
//!
//! Another owner may replace a guarded buffer's contents between two
//! operations, so nothing is assumed of what a borrow or a lock hands out:
//! only that it lends the current value for as long as the guard lives.
use std::cell::{BorrowError, Ref, RefCell};
use std::ops::Deref;
use std::sync::{Mutex, MutexGuard, PoisonError};
use vstd::prelude::*;

verus! {

#[verifier::external_type_specification]
#[verifier::external_body]
#[verifier::reject_recursive_types(T)]
pub struct ExRefCell<T: ?Sized>(RefCell<T>);

#[verifier::external_type_specification]
#[verifier::external_body]
#[verifier::reject_recursive_types(T)]
pub struct ExRef<'b, T: ?Sized>(Ref<'b, T>);

#[verifier::external_type_specification]
#[verifier::external_body]
pub struct ExBorrowError(BorrowError);

#[verifier::external_type_specification]
#[verifier::external_body]
#[verifier::reject_recursive_types(T)]
pub struct ExMutex<T: ?Sized>(Mutex<T>);

#[verifier::external_type_specification]
#[verifier::external_body]
#[verifier::reject_recursive_types(T)]
pub struct ExMutexGuard<'a, T: ?Sized + 'a>(MutexGuard<'a, T>);

#[verifier::external_type_specification]
#[verifier::external_body]
#[verifier::reject_recursive_types(T)]
pub struct ExPoisonError<T>(PoisonError<T>);

/// Relies on `RefCell::try_borrow`: a shared borrow of the current value, or an
/// error when the cell is mutably borrowed; it never panics.
pub assume_specification<T: ?Sized>[ RefCell::<T>::try_borrow ](cell: &RefCell<T>) -> Result<
    Ref<'_, T>,
    BorrowError,
>;

/// Relies on `Ref`'s `Deref`: the borrowed value itself.
#[verifier::external_body]
pub(crate) fn borrowed<'s, 'b, T: ?Sized>(r: &'s Ref<'b, T>) -> &'s T {
    r.deref()
}

/// Relies on `Mutex::lock`: waits for the lock, then hands out a guard of the
/// current value, or an error when a holder panicked.
pub assume_specification<T: ?Sized>[ Mutex::<T>::lock ](m: &Mutex<T>) -> Result<
    MutexGuard<'_, T>,
    PoisonError<MutexGuard<'_, T>>,
>;

/// Relies on `MutexGuard`'s `Deref`: the locked value itself.
#[verifier::external_body]
pub(crate) fn locked<'s, 'a, T: ?Sized>(g: &'s MutexGuard<'a, T>) -> &'s T {
    g.deref()
}

} // verus!
