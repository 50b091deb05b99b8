//! Binding for `parking_lot`'s read/write lock: a blocking acquire never
//! fails, an immediate one fails with `()` while the lock is held, and a held
//! guard can be projected onto a part of the protected value.
use vstd::prelude::*;
use core::convert::Infallible;
use core::ops::{Deref, DerefMut};
use crate::{LockBlocking, LockImmediate, SafeGuard, SafeLock};
use ::parking_lot as pl;

verus! {

/// Exclusive access to the value of a `parking_lot` read/write lock; the
/// lock is released when this is dropped.
///
/// It holds `lock_api::RwLockWriteGuard` in a private field, since that
/// type's bound on the raw lock trait keeps it out of signatures here.
#[verifier::external_body]
#[verifier::reject_recursive_types(T)]
pub struct WriteGuard<'a, T> {
    guard: pl::RwLockWriteGuard<'a, T>,
}

/// Exclusive access to a part of the value of a `parking_lot` read/write
/// lock; the lock is released when this is dropped. It holds
/// `lock_api::MappedRwLockWriteGuard`, hidden for the same reason.
#[verifier::external_body]
#[verifier::reject_recursive_types(U)]
pub struct MappedWriteGuard<'a, U> {
    guard: pl::MappedRwLockWriteGuard<'a, U>,
}

impl<'a, T> Deref for WriteGuard<'a, T> {
    type Target = T;

    /// Relies on the `Deref` of `lock_api::RwLockWriteGuard`.
    #[verifier::external_body]
    fn deref(&self) -> &T {
        self.guard.deref()
    }
}

impl<'a, T> DerefMut for WriteGuard<'a, T> {
    /// Relies on the `DerefMut` of `lock_api::RwLockWriteGuard`.
    #[verifier::external_body]
    fn deref_mut(&mut self) -> &mut T {
        self.guard.deref_mut()
    }
}

impl<'a, U> Deref for MappedWriteGuard<'a, U> {
    type Target = U;

    /// Relies on the `Deref` of `lock_api::MappedRwLockWriteGuard`.
    #[verifier::external_body]
    fn deref(&self) -> &U {
        self.guard.deref()
    }
}

impl<'a, U> DerefMut for MappedWriteGuard<'a, U> {
    /// Relies on the `DerefMut` of `lock_api::MappedRwLockWriteGuard`.
    #[verifier::external_body]
    fn deref_mut(&mut self) -> &mut U {
        self.guard.deref_mut()
    }
}

/// A handle to a `parking_lot` read/write lock.
pub type SafeRwLock<'a, T> = SafeLock<&'a pl::RwLock<T>>;

/// An inspection guard over a `parking_lot` read/write lock.
pub type SafeRwLockGuard<'a, T> = SafeGuard<&'a pl::RwLock<T>, WriteGuard<'a, T>>;

/// An inspection guard over a part of the value that a `parking_lot`
/// read/write lock protects.
pub type SafeMappedRwLockGuard<'a, T, U> = SafeGuard<&'a pl::RwLock<T>, MappedWriteGuard<'a, U>>;

/// Relies on `lock_api::RwLock::write`: waits for exclusive access and returns
/// its guard; it has no failure path.
#[verifier::external_body]
fn write_lock<'a, T>(l: &'a pl::RwLock<T>) -> WriteGuard<'a, T> {
    WriteGuard { guard: l.write() }
}

/// Relies on `lock_api::RwLock::try_write`: `Some` guard when exclusive access
/// was free, `None` otherwise, without waiting.
#[verifier::external_body]
fn try_write_lock<'a, T>(l: &'a pl::RwLock<T>) -> Option<WriteGuard<'a, T>> {
    l.try_write().map(|guard| WriteGuard { guard })
}

/// Relies on `lock_api::RwLockWriteGuard::map`: it calls `f` once on the
/// locked value, and the projected guard keeps the lock held.
#[verifier::external_body]
fn map_write_guard<'a, T, U, F>(g: WriteGuard<'a, T>, f: F) -> MappedWriteGuard<'a, U>
    where F: FnOnce(&mut T) -> &mut U,
    requires
        forall|a: (&mut T,)| #[trigger] f.requires(a),
{
    MappedWriteGuard { guard: pl::RwLockWriteGuard::map(g.guard, f) }
}

/// Relies on `lock_api::RwLockWriteGuard::try_map`: it calls `f` once on the
/// locked value; `Ok` where `f` returned `Some`, and where it returned `None`
/// the guard passed in comes back as it was.
#[verifier::external_body]
fn try_map_write_guard<'a, T, U, F>(g: WriteGuard<'a, T>, f: F) -> (r: Result<
    MappedWriteGuard<'a, U>,
    WriteGuard<'a, T>,
>)
    where F: FnOnce(&mut T) -> Option<&mut U>,
    requires
        forall|a: (&mut T,)| #[trigger] f.requires(a),
    ensures
        match r {
            Ok(_) => exists|a: (&mut T,), o: Option<&mut U>| #[trigger] f.ensures(a, o) && o is Some,
            Err(back) => back == g && exists|a: (&mut T,)| #[trigger] f.ensures(a, None::<&mut U>),
        },
        (forall|a: (&mut T,), o: Option<&mut U>| #[trigger] f.ensures(a, o) ==> o is Some) ==> r is Ok,
{
    match pl::RwLockWriteGuard::try_map(g.guard, f) {
        Ok(guard) => Ok(MappedWriteGuard { guard }),
        Err(guard) => Err(WriteGuard { guard }),
    }
}

impl<'a, T> LockBlocking for &'a pl::RwLock<T> {
    type Error = Infallible;

    type Guard = WriteGuard<'a, T>;

    open spec fn blocking_guard(&self, g: Self::Guard) -> bool {
        true
    }

    open spec fn blocking_error(&self, e: Self::Error) -> bool {
        false
    }

    fn lock_blocking(&self) -> (r: Result<Self::Guard, Self::Error>) {
        Ok(write_lock(*self))
    }
}

impl<'a, T> LockImmediate for &'a pl::RwLock<T> {
    type Error = ();

    type Guard = WriteGuard<'a, T>;

    open spec fn immediate_guard(&self, g: Self::Guard) -> bool {
        true
    }

    open spec fn immediate_error(&self, e: Self::Error) -> bool {
        true
    }

    fn lock_immediate(&self) -> (r: Result<Self::Guard, Self::Error>) {
        match try_write_lock(*self) {
            Some(g) => Ok(g),
            None => Err(()),
        }
    }
}

impl<'a, T> SafeGuard<&'a pl::RwLock<T>, WriteGuard<'a, T>> {
    /// Projects the held guard onto a part of the value through `f`; the
    /// result still unlocks to the handle of the whole lock.
    pub fn map<U, F>(self, f: F) -> (r: SafeMappedRwLockGuard<'a, T, U>)
        where F: FnOnce(&mut T) -> &mut U,
        requires
            forall|a: (&mut T,)| #[trigger] f.requires(a),
        ensures
            r.lock() == self.lock(),
    {
        let project = move |guard: WriteGuard<'a, T>| -> (p: MappedWriteGuard<'a, U>)
            requires
                forall|a: (&mut T,)| #[trigger] f.requires(a),
        {
            map_write_guard(guard, f)
        };
        self.map_guard(project)
    }

    /// Projects the held guard through `f` where `f` finds a part; where it
    /// declines, the same guard comes back, still held.
    pub fn try_map<U, F>(self, f: F) -> (r: Result<SafeMappedRwLockGuard<'a, T, U>, Self>)
        where F: FnOnce(&mut T) -> Option<&mut U>,
        requires
            forall|a: (&mut T,)| #[trigger] f.requires(a),
        ensures
            match r {
                Ok(m) => m.lock() == self.lock() && exists|a: (&mut T,), o: Option<&mut U>| #[trigger] f.ensures(a, o) && o is Some,
                Err(s) => s == self && exists|a: (&mut T,)| #[trigger] f.ensures(a, None::<&mut U>),
            },
            (forall|a: (&mut T,), o: Option<&mut U>| #[trigger] f.ensures(a, o) ==> o is Some)
                ==> r is Ok,
    {
        let ghost before = self;
        let project = move |guard: WriteGuard<'a, T>| -> (p: Result<
            MappedWriteGuard<'a, U>,
            WriteGuard<'a, T>,
        >)
            requires
                forall|a: (&mut T,)| #[trigger] f.requires(a),
            ensures
                match p {
                    Ok(_) => exists|a: (&mut T,), o: Option<&mut U>| #[trigger] f.ensures(a, o) && o is Some,
                    Err(back) => back == guard && exists|a: (&mut T,)| #[trigger] f.ensures(a, None::<&mut U>),
                },
                (forall|a: (&mut T,), o: Option<&mut U>| #[trigger] f.ensures(a, o) ==> o is Some)
                    ==> p is Ok,
        {
            try_map_write_guard(guard, f)
        };
        let r = self.try_map_guard(project);
        proof {
            if r is Err {
                SafeGuard::lemma_same_parts(r->Err_0, before);
            }
        }
        r
    }
}

} // verus!
