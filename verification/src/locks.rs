//! Synchronization primitives for a guaranteed single-threaded environment.
//! The mutex is a true no-op, which is safe because no second thread can ever
//! exist; condition-variable notification is a harmless no-op.  Waiting on a
//! condition variable makes no sense without other threads, so the wait
//! operations are not offered here: they belong to the program shell, where
//! they abort.

use vstd::prelude::*;

verus! {

/// A mutual-exclusion lock over nothing: with one thread of control there is
/// never contention, so acquiring and releasing do no work.
pub struct Mutex {}

impl Mutex {
    pub fn new() -> (m: Mutex) {
        Mutex {}
    }

    /// Acquires the lock; never blocks, because no other holder can exist.
    pub fn lock(&self) {
    }

    /// Releases the lock.
    pub fn unlock(&self) {
    }

    /// Attempts to acquire the lock, which always succeeds.
    pub fn try_lock(&self) -> (r: bool)
        ensures
            r == true,
    {
        true
    }
}

/// A condition variable whose notifications have nobody to wake.
pub struct Condvar {}

impl Condvar {
    pub fn new() -> (c: Condvar) {
        Condvar {}
    }

    /// Waking one waiter is a no-op: no waiter can exist.
    pub fn notify_one(&self) {
    }

    /// Waking all waiters is a no-op: no waiter can exist.
    pub fn notify_all(&self) {
    }
}

} // verus!
