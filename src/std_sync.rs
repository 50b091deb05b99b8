//! Binding for std's read/write lock, which poisons: a blocking acquire fails
//! once a holder panicked, an immediate one also fails while the lock is held.
use vstd::prelude::*;
use crate::{LockBlocking, LockImmediate, SafeGuard, SafeLock};

verus! {

/// `std::sync::RwLock`; opaque.
#[verifier::external_type_specification]
#[verifier::external_body]
#[verifier::reject_recursive_types(T)]
pub struct ExStdRwLock<T: ?Sized>(std::sync::RwLock<T>);

/// `std::sync::RwLockWriteGuard`, exclusive access while alive; opaque.
#[verifier::external_type_specification]
#[verifier::external_body]
#[verifier::reject_recursive_types(T)]
pub struct ExStdRwLockWriteGuard<'a, T: ?Sized + 'a>(std::sync::RwLockWriteGuard<'a, T>);

/// `std::sync::PoisonError`, the failure of a poisoned lock; opaque.
#[verifier::external_type_specification]
#[verifier::external_body]
#[verifier::reject_recursive_types(T)]
pub struct ExStdPoisonError<T>(std::sync::PoisonError<T>);

/// `std::sync::TryLockError`, poisoned or would block; opaque.
#[verifier::external_type_specification]
#[verifier::external_body]
#[verifier::reject_recursive_types(T)]
pub struct ExStdTryLockError<T>(std::sync::TryLockError<T>);

/// A handle to a std read/write lock.
pub type SafeRwLock<'a, T> = SafeLock<&'a std::sync::RwLock<T>>;

/// An inspection guard over a std read/write lock.
pub type SafeRwLockGuard<'a, T> = SafeGuard<
    &'a std::sync::RwLock<T>,
    std::sync::RwLockWriteGuard<'a, T>,
>;

/// Relies on `std::sync::RwLock::write`: waits for exclusive access; the
/// error carries the guard when a previous holder panicked.
#[verifier::external_body]
fn write_lock<'a, T>(l: &'a std::sync::RwLock<T>) -> Result<
    std::sync::RwLockWriteGuard<'a, T>,
    std::sync::PoisonError<std::sync::RwLockWriteGuard<'a, T>>,
> {
    l.write()
}

/// Relies on `std::sync::RwLock::try_write`: fails at once while the lock is
/// held elsewhere, or when a previous holder panicked.
#[verifier::external_body]
fn try_write_lock<'a, T>(l: &'a std::sync::RwLock<T>) -> Result<
    std::sync::RwLockWriteGuard<'a, T>,
    std::sync::TryLockError<std::sync::RwLockWriteGuard<'a, T>>,
> {
    l.try_write()
}

impl<'a, T> LockBlocking for &'a std::sync::RwLock<T> {
    type Error = std::sync::PoisonError<std::sync::RwLockWriteGuard<'a, T>>;

    type Guard = std::sync::RwLockWriteGuard<'a, T>;

    open spec fn blocking_guard(&self, g: Self::Guard) -> bool {
        true
    }

    open spec fn blocking_error(&self, e: Self::Error) -> bool {
        true
    }

    fn lock_blocking(&self) -> (r: Result<Self::Guard, Self::Error>) {
        write_lock(*self)
    }
}

impl<'a, T> LockImmediate for &'a std::sync::RwLock<T> {
    type Error = std::sync::TryLockError<std::sync::RwLockWriteGuard<'a, T>>;

    type Guard = std::sync::RwLockWriteGuard<'a, T>;

    open spec fn immediate_guard(&self, g: Self::Guard) -> bool {
        true
    }

    open spec fn immediate_error(&self, e: Self::Error) -> bool {
        true
    }

    fn lock_immediate(&self) -> (r: Result<Self::Guard, Self::Error>) {
        try_write_lock(*self)
    }
}

} // verus!
