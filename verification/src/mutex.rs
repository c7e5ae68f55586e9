//! The mutual-exclusion primitive guarding singleton peripheral handles.
//!
//! `lock` hands out a guard carrying exclusive access to the protected
//! value; `unlock` takes the guard back and makes the lock immediately
//! acquirable again. The firmware is single-core and free of preemption, so
//! a contended `lock` could only spin forever; acquiring a lock that is
//! already held is therefore excluded by precondition rather than awaited.

use vstd::prelude::*;

verus! {

/// A spin-based exclusive lock around a value of type `T`.
pub struct Mutex<T> {
    locked: bool,
    inner: Option<T>,
}

/// The guard a `lock` call hands out: it owns the protected value until it
/// is given back through `unlock`.
pub struct MutexGuard<T> {
    value: T,
}

impl<T> MutexGuard<T> {
    /// The protected value this guard carries.
    pub closed spec fn spec_value(self) -> T {
        self.value
    }

    /// Returns the protected value this guard carries.
    pub fn value(&self) -> (r: &T)
        ensures
            *r == self.spec_value(),
    {
        &self.value
    }

    /// Returns exclusive access to the protected value.
    pub fn value_mut(&mut self) -> (r: &mut T)
        ensures
            *r == old(self).spec_value(),
            final(self).spec_value() == *final(r),
    {
        &mut self.value
    }
}

/// Describes one `lock` call: `m1` is the mutex after the call on `m0`, and
/// `g` the guard it handed out.
pub open spec fn lock_transition<T>(m0: Mutex<T>, m1: Mutex<T>, g: MutexGuard<T>) -> bool {
    &&& m1.is_locked()
    &&& m1.wf()
    &&& g.spec_value() == m0.spec_inner()->Some_0
}

/// Describes one `unlock` call: `m1` is the mutex after giving guard `g`
/// back to `m0`.
pub open spec fn unlock_transition<T>(m0: Mutex<T>, g: MutexGuard<T>, m1: Mutex<T>) -> bool {
    &&& !m1.is_locked()
    &&& m1.wf()
    &&& m1.spec_inner() == Some(g.spec_value())
}

impl<T> Mutex<T> {
    /// True while a guard for this lock is outstanding.
    pub closed spec fn is_locked(self) -> bool {
        self.locked
    }

    /// The protected value, present whenever no guard is outstanding.
    pub closed spec fn spec_inner(self) -> Option<T> {
        self.inner
    }

    /// A lock is well formed when it holds the protected value exactly
    /// while no guard is outstanding.
    pub open spec fn wf(self) -> bool {
        self.is_locked() <==> self.spec_inner() is None
    }

    /// Returns a new, unlocked lock protecting `value`.
    pub fn new(value: T) -> (r: Mutex<T>)
        ensures
            r.wf(),
            !r.is_locked(),
            r.spec_inner() == Some(value),
    {
        Mutex { locked: false, inner: Some(value) }
    }

    /// Acquires the lock and hands out the guard carrying the protected
    /// value. Acquiring a lock that is already held would spin forever on
    /// this single-core board, so it is excluded by precondition.
    pub fn lock(&mut self) -> (g: MutexGuard<T>)
        requires
            old(self).wf(),
            !old(self).is_locked(),
        ensures
            lock_transition(*old(self), *final(self), g),
    {
        self.locked = true;
        let value = self.inner.take();
        match value {
            Some(v) => MutexGuard { value: v },
            None => vstd::pervasive::unreached(),
        }
    }

    /// Releases the lock by taking the guard back; the lock is immediately
    /// acquirable again and protects the value the guard carried.
    pub fn unlock(&mut self, g: MutexGuard<T>)
        requires
            old(self).wf(),
            old(self).is_locked(),
        ensures
            unlock_transition(*old(self), g, *final(self)),
    {
        self.inner = Some(g.value);
        self.locked = false;
    }
}

/// Law: at most one guard is ever live, and dropping a guard makes the lock
/// immediately acquirable. A `lock` call leaves the mutex locked, and a
/// locked mutex fails `lock`'s precondition, so no second guard can be
/// handed out while the first is live; giving the guard back leaves the
/// mutex unlocked and well formed, ready for the next `lock`.
pub proof fn lemma_mutex_exclusivity<T>(m0: Mutex<T>, m1: Mutex<T>, g: MutexGuard<T>, m2: Mutex<T>)
    requires
        m0.wf(),
        !m0.is_locked(),
        lock_transition(m0, m1, g),
        unlock_transition(m1, g, m2),
    ensures
        m1.is_locked(),
        !m2.is_locked(),
        m2.wf(),
        !(m1.wf() && !m1.is_locked()),
{
}

} // verus!
