//! Models of the cross-process synchronization primitives that the
//! segment embeds: a robust mutex whose holder may die without unlocking,
//! and an eventfd used in semaphore mode.
//!
//! The operating system carries these between real processes; inside the
//! library they are plain values with the documented behaviour, so that
//! every decision taken over their outcomes is verified. A driver that
//! maps a real segment takes the same decisions over the real primitives.

use vstd::prelude::*;

verus! {

/// The outcome of a try-lock on a robust mutex.
#[derive(Debug, Clone, Copy, PartialEq, Eq)]
pub enum TryLockOutcome {
    /// The lock was taken and the protected value is in a clean state.
    Acquired,
    /// The lock was taken, but a previous holder died while holding it:
    /// the protected value may be stale and the caller is told so.
    AcquiredOwnerDied,
    /// Another holder has the lock.
    WouldBlock,
}

/// A cross-process mutex with the robust attribute: if the holding
/// process exits without unlocking, the mutex is left in a recoverable
/// "previous owner died" state rather than deadlocked. Holders are named
/// by their process identifier.
pub struct PinnedMutex<T> {
    value: T,
    holder: Option<u32>,
    previous_owner_died: bool,
}

impl<T> PinnedMutex<T> {
    /// The protected value.
    pub closed spec fn inner(self) -> T {
        self.value
    }

    /// Whether some process holds the lock.
    pub closed spec fn is_locked(self) -> bool {
        self.holder is Some
    }

    /// Whether the process with identifier `pid` holds the lock.
    pub closed spec fn locked_by(self, pid: u32) -> bool {
        self.holder == Some(pid)
    }

    /// Whether a previous holder died while holding the lock.
    pub closed spec fn owner_died(self) -> bool {
        self.previous_owner_died
    }

    /// A fresh, unlocked mutex around `value`.
    pub fn new(value: T) -> (r: PinnedMutex<T>)
        ensures
            r.inner() == value,
            !r.is_locked(),
            !r.owner_died(),
    {
        PinnedMutex { value, holder: None, previous_owner_died: false }
    }

    /// Try to take the lock for process `pid`. Taking a lock whose
    /// previous holder died succeeds and reports the dirty state, which
    /// is thereby consumed.
    pub fn try_lock(&mut self, pid: u32) -> (r: TryLockOutcome)
        ensures
            old(self).is_locked() ==> r == TryLockOutcome::WouldBlock && *final(self) == *old(
                self,
            ),
            !old(self).is_locked() && !old(self).owner_died() ==> r == TryLockOutcome::Acquired,
            !old(self).is_locked() && old(self).owner_died() ==> r
                == TryLockOutcome::AcquiredOwnerDied,
            !old(self).is_locked() ==> final(self).locked_by(pid) && !final(self).owner_died()
                && final(self).inner() == old(self).inner(),
    {
        match self.holder {
            Some(_) => TryLockOutcome::WouldBlock,
            None => {
                self.holder = Some(pid);
                if self.previous_owner_died {
                    self.previous_owner_died = false;
                    TryLockOutcome::AcquiredOwnerDied
                } else {
                    TryLockOutcome::Acquired
                }
            },
        }
    }

    /// Read the protected value; only the holder may.
    pub fn value<'a>(&'a self, pid: u32) -> (r: &'a T)
        requires
            self.locked_by(pid),
        ensures
            *r == self.inner(),
    {
        &self.value
    }

    /// Replace the protected value; only the holder may.
    pub fn set_value(&mut self, pid: u32, value: T)
        requires
            old(self).locked_by(pid),
        ensures
            final(self).inner() == value,
            final(self).locked_by(pid),
            final(self).owner_died() == old(self).owner_died(),
    {
        self.value = value;
    }

    /// Release the lock; only the holder may.
    pub fn unlock(&mut self, pid: u32)
        requires
            old(self).locked_by(pid),
        ensures
            !final(self).is_locked(),
            final(self).inner() == old(self).inner(),
            final(self).owner_died() == old(self).owner_died(),
    {
        self.holder = None;
    }

    /// The holding process exits without unlocking. The operating system
    /// marks the mutex recoverable: the next try-lock succeeds and
    /// reports that the previous owner died.
    pub fn holder_dies(&mut self)
        requires
            old(self).is_locked(),
        ensures
            !final(self).is_locked(),
            final(self).owner_died(),
            final(self).inner() == old(self).inner(),
    {
        self.holder = None;
        self.previous_owner_died = true;
    }
}

/// A cross-process condition variable. It is part of the segment layout
/// for future expansion only: the current cores never gate on it and
/// rely on the eventfd semaphores instead, so it carries no operations.
pub struct PinnedCondvar {
    _reserved: bool,
}

impl PinnedCondvar {
    /// A fresh condition variable.
    pub fn new() -> (r: PinnedCondvar) {
        PinnedCondvar { _reserved: false }
    }
}

/// An eventfd in semaphore mode: a post raises the counter by one and a
/// wait consumes one, so multiple posts coalesce into multiple successful
/// waits. The counter saturates at its maximum, which no real workload
/// reaches.
pub struct EventfdSemaphore {
    count: u64,
}

impl EventfdSemaphore {
    /// The number of posts not yet consumed by a wait.
    pub closed spec fn level(self) -> u64 {
        self.count
    }

    /// A fresh semaphore with an initial count of zero.
    pub fn new() -> (r: EventfdSemaphore)
        ensures
            r.level() == 0,
    {
        EventfdSemaphore { count: 0u64 }
    }

    /// Raise the counter by one.
    pub fn post(&mut self)
        ensures
            old(self).level() < u64::MAX ==> final(self).level() == old(self).level() + 1,
            old(self).level() == u64::MAX ==> final(self).level() == old(self).level(),
    {
        if self.count < u64::MAX {
            self.count = self.count + 1;
        }
    }

    /// Consume one post if any is pending; report whether a wait would
    /// have returned now.
    pub fn try_wait(&mut self) -> (r: bool)
        ensures
            r <==> old(self).level() > 0,
            r ==> final(self).level() == old(self).level() - 1,
            !r ==> *final(self) == *old(self),
    {
        if self.count > 0 {
            self.count = self.count - 1;
            true
        } else {
            false
        }
    }
}

} // verus!
