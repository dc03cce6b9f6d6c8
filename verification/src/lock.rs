//! A non-blocking lock: `try_lock` either acquires or reports the lock taken,
//! and never waits. Spin on it if you want a blocking acquire.

use vstd::prelude::*;

verus! {

/// A simple lock. Acquiring hands out a guard; giving the guard back releases.
pub struct SimpleLock<T> {
    locked: bool,
    value: T,
}

/// A guard witnessing an acquired [`SimpleLock`]. It cannot be constructed
/// outside this module; the only source is a successful `try_lock`.
pub struct SimpleLockGuard {
    _private: (),
}

impl<T> SimpleLock<T> {
    /// Whether the lock is currently held.
    pub closed spec fn locked(&self) -> bool {
        self.locked
    }

    /// The protected value.
    pub closed spec fn inner(&self) -> T {
        self.value
    }

    /// Returns a new SimpleLock initialized with `value`.
    pub fn new(value: T) -> (l: SimpleLock<T>)
        ensures
            !l.locked(),
            l.inner() == value,
    {
        SimpleLock { locked: false, value }
    }

    /// Try to lock: a guard exactly when the lock was free.
    pub fn try_lock(&mut self) -> (r: Option<SimpleLockGuard>)
        ensures
            old(self).locked() ==> r is None && *final(self) == *old(self),
            !old(self).locked() ==> r is Some && final(self).locked(),
            final(self).inner() == old(self).inner(),
    {
        if self.locked {
            None
        } else {
            self.locked = true;
            Some(SimpleLockGuard { _private: () })
        }
    }

    /// Is locked?
    pub fn is_locked(&self) -> (r: bool)
        ensures
            r == self.locked(),
    {
        self.locked
    }

    /// Release the lock by returning its guard.
    pub fn unlock(&mut self, guard: SimpleLockGuard)
        requires
            old(self).locked(),
        ensures
            !final(self).locked(),
            final(self).inner() == old(self).inner(),
    {
        let SimpleLockGuard { _private: () } = guard;
        self.locked = false;
    }

    /// Read the protected value through a held guard.
    pub fn get<'a>(&'a self, guard: &SimpleLockGuard) -> (r: &'a T)
        requires
            self.locked(),
        ensures
            *r == self.inner(),
    {
        let _ = guard;
        &self.value
    }

    /// Write access to the protected value through a held guard.
    pub fn get_mut<'a>(&'a mut self, guard: &SimpleLockGuard) -> (r: &'a mut T)
        requires
            old(self).locked(),
        ensures
            *r == old(self).inner(),
            final(self).inner() == *final(r),
            final(self).locked(),
    {
        let _ = guard;
        &mut self.value
    }
}

} // verus!
