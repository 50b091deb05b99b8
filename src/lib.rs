//! A locking discipline in types: a lock is taken in write mode, inspected
//! through a read-only guard, and only an explicit `upgrade` hands out the
//! guard that can write.
use vstd::prelude::*;
use core::convert::Infallible;
use core::ops::Deref;

mod lock_api_types;
pub mod parking_lot;
pub mod std_sync;

verus! {

/// A lock handle: the means to request a lock, never the lock itself.
///
/// Every attempt to lock consumes the handle; it comes back on release and on
/// every path that fails.
#[derive(Debug)]
pub struct SafeLock<L>(L);

/// A held write lock that only allows reading until it is upgraded.
///
/// It keeps the handle that produced it, so that unlocking gives the handle
/// back, and the guard that the lock handed out.
#[derive(Debug)]
pub struct SafeGuard<L, G> {
    lock: SafeLock<L>,
    guard: G,
}

/// A lock that can be acquired in write mode, waiting until it is free.
pub trait LockBlocking {
    type Error;

    type Guard;

    /// Holds of each guard that a blocking acquire through `self` may return.
    spec fn blocking_guard(&self, g: Self::Guard) -> bool;

    /// Holds of each failure that a blocking acquire through `self` may report.
    /// A lock whose blocking acquire cannot fail defines it as `false`; that is
    /// what lets `SafeLock::lock_blocking` take the lock without a failure path.
    spec fn blocking_error(&self, e: Self::Error) -> bool;

    /// Waits until the lock is free and takes it in write mode.
    fn lock_blocking(&self) -> (r: Result<Self::Guard, Self::Error>)
        ensures
            match r {
                Ok(g) => self.blocking_guard(g),
                Err(e) => self.blocking_error(e),
            },
    ;
}

/// A lock that can be asked for in write mode without waiting.
pub trait LockImmediate {
    type Error;

    type Guard;

    /// Holds of each guard that an immediate acquire through `self` may return.
    spec fn immediate_guard(&self, g: Self::Guard) -> bool;

    /// Holds of each failure that an immediate acquire through `self` may report.
    /// A lock whose immediate acquire cannot fail defines it as `false`; that is
    /// what lets `SafeLock::lock_immediate` take the lock without a failure path.
    spec fn immediate_error(&self, e: Self::Error) -> bool;

    /// Takes the lock in write mode if it is free, and fails at once if not.
    fn lock_immediate(&self) -> (r: Result<Self::Guard, Self::Error>)
        ensures
            match r {
                Ok(g) => self.immediate_guard(g),
                Err(e) => self.immediate_error(e),
            },
    ;
}

impl<L> SafeLock<L> {
    /// The handle that this token wraps.
    pub closed spec fn handle(self) -> L {
        self.0
    }

    /// `g` is what a successful blocking acquire through `self` yields: it
    /// keeps `self` for unlocking and holds a guard of the lock.
    pub open spec fn acquired_blocking(self, g: SafeGuard<L, L::Guard>) -> bool
        where L: LockBlocking,
    {
        g.lock() == self && self.handle().blocking_guard(g.guard())
    }

    /// `g` is what a successful immediate acquire through `self` yields.
    pub open spec fn acquired_immediate(self, g: SafeGuard<L, L::Guard>) -> bool
        where L: LockImmediate,
    {
        g.lock() == self && self.handle().immediate_guard(g.guard())
    }

    /// `r` is an outcome of one blocking attempt through `self`: a guard that
    /// keeps `self`, or `self` back unchanged where the lock may report a
    /// failure.
    pub open spec fn blocking_attempt(self, r: Result<SafeGuard<L, L::Guard>, Self>) -> bool
        where L: LockBlocking,
    {
        match r {
            Ok(g) => self.acquired_blocking(g),
            Err(h) => h == self && exists|e: L::Error| self.handle().blocking_error(e),
        }
    }

    /// No blocking acquire through this handle can report a failure.
    pub open spec fn blocking_cannot_fail(self) -> bool
        where L: LockBlocking,
    {
        forall|e: L::Error| !self.handle().blocking_error(e)
    }

    /// `r` is an outcome of one immediate attempt through `self`: a guard that
    /// keeps `self`, or `self` back unchanged where the lock may report a
    /// failure.
    pub open spec fn immediate_attempt(self, r: Result<SafeGuard<L, L::Guard>, Self>) -> bool
        where L: LockImmediate,
    {
        match r {
            Ok(g) => self.acquired_immediate(g),
            Err(h) => h == self && exists|e: L::Error| self.handle().immediate_error(e),
        }
    }

    /// No immediate acquire through this handle can report a failure.
    pub open spec fn immediate_cannot_fail(self) -> bool
        where L: LockImmediate,
    {
        forall|e: L::Error| !self.handle().immediate_error(e)
    }

    /// Wraps a handle without acquiring anything.
    pub fn new(lock: L) -> (r: Self)
        ensures
            r.handle() == lock,
    {
        SafeLock(lock)
    }

    /// Takes the lock in write mode, waiting for it; the lock cannot refuse.
    pub fn lock_blocking(self) -> (r: SafeGuard<L, L::Guard>)
        where L: LockBlocking<Error = Infallible>,
        requires
            self.blocking_cannot_fail(),
        ensures
            self.acquired_blocking(r),
    {
        match LockBlocking::lock_blocking(&self.0) {
            Ok(guard) => SafeGuard { lock: self, guard },
        }
    }

    /// Takes the lock in write mode, waiting for it; on failure the handle
    /// comes back unchanged.
    pub fn try_lock_blocking(self) -> (r: Result<SafeGuard<L, L::Guard>, Self>)
        where L: LockBlocking,
        ensures
            self.blocking_attempt(r),
    {
        match LockBlocking::lock_blocking(&self.0) {
            Ok(guard) => Ok(SafeGuard { lock: self, guard }),
            Err(err) => {
                assert(self.handle().blocking_error(err));
                Err(self)
            },
        }
    }

    /// Takes the lock in write mode, waiting for it; on failure the handle
    /// comes back unchanged, with the lock's error.
    pub fn try_lock_blocking_err(self) -> (r: Result<SafeGuard<L, L::Guard>, (Self, L::Error)>)
        where L: LockBlocking,
        ensures
            match r {
                Ok(g) => self.acquired_blocking(g),
                Err((h, e)) => h == self && self.handle().blocking_error(e),
            },
    {
        match LockBlocking::lock_blocking(&self.0) {
            Ok(guard) => Ok(SafeGuard { lock: self, guard }),
            Err(err) => Err((self, err)),
        }
    }

    /// Takes the lock in write mode without waiting; the lock cannot refuse.
    pub fn lock_immediate(self) -> (r: SafeGuard<L, L::Guard>)
        where L: LockImmediate<Error = Infallible>,
        requires
            self.immediate_cannot_fail(),
        ensures
            self.acquired_immediate(r),
    {
        match LockImmediate::lock_immediate(&self.0) {
            Ok(guard) => SafeGuard { lock: self, guard },
        }
    }

    /// Takes the lock in write mode if it is free; otherwise the handle comes
    /// back unchanged at once.
    pub fn try_lock_immediate(self) -> (r: Result<SafeGuard<L, L::Guard>, Self>)
        where L: LockImmediate,
        ensures
            self.immediate_attempt(r),
    {
        match LockImmediate::lock_immediate(&self.0) {
            Ok(guard) => Ok(SafeGuard { lock: self, guard }),
            Err(err) => {
                assert(self.handle().immediate_error(err));
                Err(self)
            },
        }
    }

    /// Takes the lock in write mode if it is free; otherwise the handle comes
    /// back unchanged at once, with the lock's error.
    pub fn try_lock_immediate_err(self) -> (r: Result<SafeGuard<L, L::Guard>, (Self, L::Error)>)
        where L: LockImmediate,
        ensures
            match r {
                Ok(g) => self.acquired_immediate(g),
                Err((h, e)) => h == self && self.handle().immediate_error(e),
            },
    {
        match LockImmediate::lock_immediate(&self.0) {
            Ok(guard) => Ok(SafeGuard { lock: self, guard }),
            Err(err) => Err((self, err)),
        }
    }
}

impl<L, G> SafeGuard<L, G> {
    /// The handle that unlocking gives back.
    pub closed spec fn lock(self) -> SafeLock<L> {
        self.lock
    }

    /// The guard that upgrading hands out.
    pub closed spec fn guard(self) -> G {
        self.guard
    }

    /// Two guards with the same handle and the same underlying guard are one.
    pub proof fn lemma_same_parts(a: Self, b: Self)
        requires
            a.lock() == b.lock(),
            a.guard() == b.guard(),
        ensures
            a == b,
    {
    }

    /// `m` is what projecting `self` through `f` yields: the same handle, and
    /// the guard that `f` returned for this one.
    pub open spec fn mapped_by<F, H>(self, f: F, m: SafeGuard<L, H>) -> bool
        where F: FnOnce(G) -> H,
    {
        m.lock() == self.lock() && f.ensures((self.guard(),), m.guard())
    }

    /// Gives up the inspection state and hands out the guard that can write.
    pub fn upgrade(self) -> (r: G)
        ensures
            r == self.guard(),
    {
        self.guard
    }

    /// Releases the lock and gives back the handle, ready for another attempt.
    pub fn unlock(self) -> (r: SafeLock<L>)
        ensures
            r == self.lock(),
    {
        self.lock
    }

    /// Projects the guard through `f`, keeping the same handle.
    pub fn map_guard<F, H>(self, f: F) -> (r: SafeGuard<L, H>)
        where F: FnOnce(G) -> H,
        requires
            f.requires((self.guard(),)),
        ensures
            self.mapped_by(f, r),
    {
        SafeGuard { lock: self.lock, guard: f(self.guard) }
    }

    /// Projects the guard through `f`, which may decline and hand the guard
    /// back; the lock stays held either way.
    pub fn try_map_guard<F, H>(self, f: F) -> (r: Result<SafeGuard<L, H>, Self>)
        where F: FnOnce(G) -> Result<H, G>,
        requires
            f.requires((self.guard(),)),
        ensures
            match r {
                Ok(m) => m.lock() == self.lock() && f.ensures((self.guard(),), Ok(m.guard())),
                Err(s) => s.lock() == self.lock() && f.ensures((self.guard(),), Err(s.guard())),
            },
    {
        match f(self.guard) {
            Ok(guard) => Ok(SafeGuard { lock: self.lock, guard }),
            Err(guard) => Err(SafeGuard { lock: self.lock, guard }),
        }
    }

    /// Projects the guard through `f`, which may decline, handing the guard
    /// back with an error; the lock stays held either way.
    pub fn try_map_guard_err<F, H, E>(self, f: F) -> (r: Result<SafeGuard<L, H>, (Self, E)>)
        where F: FnOnce(G) -> Result<H, (G, E)>,
        requires
            f.requires((self.guard(),)),
        ensures
            match r {
                Ok(m) => m.lock() == self.lock() && f.ensures((self.guard(),), Ok(m.guard())),
                Err((s, e)) => s.lock() == self.lock() && f.ensures(
                    (self.guard(),),
                    Err((s.guard(), e)),
                ),
            },
    {
        match f(self.guard) {
            Ok(guard) => Ok(SafeGuard { lock: self.lock, guard }),
            Err((guard, err)) => Err((SafeGuard { lock: self.lock, guard }, err)),
        }
    }
}

impl<L, G: Deref<Target = T>, T> Deref for SafeGuard<L, G> {
    type Target = T;

    /// Read-only access to the protected value, through the held guard.
    fn deref(&self) -> (r: &T)
        ensures
            call_ensures(G::deref, (&self.guard(),), r),
    {
        self.guard.deref()
    }
}

/// A handle is determined by the lock it wraps: the handle that a failed
/// attempt gives back equals a freshly wrapped one over the same lock, so
/// every later attempt through it behaves as through the fresh one.
pub proof fn lemma_returned_handle_is_fresh<L>(returned: SafeLock<L>, fresh: SafeLock<L>)
    requires
        returned.handle() == fresh.handle(),
    ensures
        returned == fresh,
{
}

/// Where the lock cannot report a failure, a blocking attempt succeeds.
pub proof fn lemma_blocking_attempt_succeeds<L: LockBlocking>(
    h: SafeLock<L>,
    r: Result<SafeGuard<L, L::Guard>, SafeLock<L>>,
)
    requires
        h.blocking_cannot_fail(),
        h.blocking_attempt(r),
    ensures
        r is Ok,
{
}

/// Where the lock cannot report a failure, an immediate attempt succeeds.
pub proof fn lemma_immediate_attempt_succeeds<L: LockImmediate>(
    h: SafeLock<L>,
    r: Result<SafeGuard<L, L::Guard>, SafeLock<L>>,
)
    requires
        h.immediate_cannot_fail(),
        h.immediate_attempt(r),
    ensures
        r is Ok,
{
}

/// Locking and then unlocking gives back the handle that was locked, over
/// the same lock.
pub proof fn lemma_lock_unlock_round_trip<L: LockBlocking>(
    h: SafeLock<L>,
    g: SafeGuard<L, L::Guard>,
    back: SafeLock<L>,
)
    requires
        h.acquired_blocking(g),
        back == g.lock(),
    ensures
        back == h,
        back.handle() == h.handle(),
{
}

/// Locking without waiting and then unlocking gives back the handle that was
/// locked, over the same lock.
pub proof fn lemma_lock_immediate_unlock_round_trip<L: LockImmediate>(
    h: SafeLock<L>,
    g: SafeGuard<L, L::Guard>,
    back: SafeLock<L>,
)
    requires
        h.acquired_immediate(g),
        back == g.lock(),
    ensures
        back == h,
        back.handle() == h.handle(),
{
}

/// Upgrading a freshly acquired guard hands out a guard that the lock itself
/// gave for this handle, not a copy or a guard of another acquire.
pub proof fn lemma_upgrade_gives_lock_guard<L: LockBlocking>(
    h: SafeLock<L>,
    g: SafeGuard<L, L::Guard>,
    w: L::Guard,
)
    requires
        h.acquired_blocking(g),
        w == g.guard(),
    ensures
        h.handle().blocking_guard(w),
{
}

/// Projecting a guard keeps the target of unlocking: the projected guard
/// unlocks to the handle of the whole lock, not to one of the part.
pub proof fn lemma_projection_keeps_unlock_target<L, G, F, H>(
    h: SafeLock<L>,
    g: SafeGuard<L, G>,
    f: F,
    m: SafeGuard<L, H>,
    back: SafeLock<L>,
)
    where F: FnOnce(G) -> H,
    requires
        g.lock() == h,
        g.mapped_by(f, m),
        back == m.lock(),
    ensures
        back == h,
{
}

} // verus!
