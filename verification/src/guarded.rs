//! A payload guarded by the phase-fair lock.
//!
//! [`GuardedLock`] pairs a [`RawPFLock`] with a value and grants access to
//! the value only under a matching acquisition: shared read access while at
//! least one read acquisition is outstanding, exclusive write access while
//! the write acquisition is.  Acquisitions are recorded in the lock's own
//! counters, so the access rules are exactly the protocol's; every
//! operation's contract carries the counter transition of the underlying
//! raw operation together with what it means for the payload.
//!
//! In the concurrent form of the lock the acquisitions live in scoped
//! guards whose destruction releases on every exit path; here each acquire
//! is paired with an explicit release, and the contracts prove that a
//! release returns the lock to a state as acquirable as before.

use crate::protocol::READER_COUNT_SPAN;
use crate::raw::RawPFLock;
use vstd::prelude::*;

verus! {

/// A value of type `T` whose access is ruled by a phase-fair lock.
pub struct GuardedLock<T> {
    raw: RawPFLock,
    value: T,
}

impl<T> GuardedLock<T> {
    /// The state of the underlying lock counters.
    pub closed spec fn raw_state(self) -> RawPFLock {
        self.raw
    }

    /// The guarded value.
    pub closed spec fn payload(self) -> T {
        self.value
    }

    /// The protocol invariant of the underlying lock.
    pub open spec fn wf(self) -> bool {
        self.raw_state().wf()
    }

    /// The number of read acquisitions currently outstanding.
    pub open spec fn readers(self) -> int {
        self.raw_state().active_readers()
    }

    /// True while the write acquisition is outstanding.
    pub open spec fn writer_held(self) -> bool {
        self.raw_state().writer_active()
    }

    /// True when no acquisition of any kind is outstanding.
    pub open spec fn unlocked(self) -> bool {
        !self.writer_held() && self.readers() == 0
    }

    /// Wraps `value` behind a fresh lock with all counters zero.
    pub fn new(value: T) -> (r: GuardedLock<T>)
        ensures
            r.wf(),
            r.unlocked(),
            r.payload() == value,
    {
        GuardedLock { raw: RawPFLock::new(), value }
    }

    /// Acquires shared read access; the payload is untouched.
    pub fn acquire_read(&mut self)
        requires
            old(self).wf(),
            !old(self).writer_held(),
            old(self).readers() < READER_COUNT_SPAN - 1,
        ensures
            final(self).wf(),
            !final(self).writer_held(),
            final(self).readers() == old(self).readers() + 1,
            final(self).payload() == old(self).payload(),
            final(self).raw_state() == old(self).raw_state().read_acquire_t(),
    {
        self.raw.lock_shared();
    }

    /// Releases one outstanding read acquisition; the payload is untouched.
    pub fn release_read(&mut self)
        requires
            old(self).wf(),
            old(self).readers() >= 1,
        ensures
            final(self).wf(),
            final(self).writer_held() == old(self).writer_held(),
            final(self).readers() == old(self).readers() - 1,
            final(self).payload() == old(self).payload(),
            final(self).raw_state() == old(self).raw_state().read_release_t(),
    {
        self.raw.unlock_shared();
    }

    /// Attempts to acquire read access without waiting: succeeds exactly
    /// when no writer holds or awaits the lock, and on failure leaves the
    /// outstanding acquisitions as they were.
    pub fn try_acquire_read(&mut self) -> (ok: bool)
        requires
            old(self).wf(),
            old(self).readers() < READER_COUNT_SPAN - 1,
        ensures
            ok == !old(self).writer_held(),
            final(self).wf(),
            final(self).writer_held() == old(self).writer_held(),
            final(self).readers() == old(self).readers() + if ok {
                1int
            } else {
                0int
            },
            final(self).payload() == old(self).payload(),
    {
        self.raw.try_lock_shared()
    }

    /// Acquires exclusive write access; the payload is untouched.
    pub fn acquire_write(&mut self)
        requires
            old(self).wf(),
            old(self).unlocked(),
        ensures
            final(self).wf(),
            final(self).writer_held(),
            final(self).readers() == 0,
            final(self).payload() == old(self).payload(),
            final(self).raw_state() == old(self).raw_state().write_acquire_t(),
    {
        self.raw.lock_exclusive();
    }

    /// Releases the outstanding write acquisition; the payload keeps
    /// whatever the writer stored — also when the release happens on an
    /// unwind out of the critical section, so a failed writer never leaves
    /// the lock unusable.
    pub fn release_write(&mut self)
        requires
            old(self).wf(),
            old(self).writer_held(),
        ensures
            final(self).wf(),
            final(self).unlocked(),
            final(self).payload() == old(self).payload(),
            final(self).raw_state() == old(self).raw_state().write_release_t(),
    {
        self.raw.unlock_exclusive();
    }

    /// Attempts to acquire write access without waiting: succeeds exactly
    /// when no acquisition of any kind is outstanding, and on failure
    /// leaves the outstanding acquisitions as they were.
    pub fn try_acquire_write(&mut self) -> (ok: bool)
        requires
            old(self).wf(),
        ensures
            ok == old(self).unlocked(),
            final(self).wf(),
            ok ==> final(self).writer_held() && final(self).readers() == 0,
            !ok ==> final(self).writer_held() == old(self).writer_held()
                && final(self).readers() == old(self).readers(),
            final(self).payload() == old(self).payload(),
    {
        self.raw.try_lock_exclusive()
    }

    /// Shared access to the payload, for a holder of any outstanding
    /// acquisition (readers observe, the writer may also look at what it
    /// is about to overwrite).
    pub fn read(&self) -> (r: &T)
        requires
            self.readers() > 0 || self.writer_held(),
        ensures
            *r == self.payload(),
    {
        &self.value
    }

    /// Stores `v` in the payload, for the holder of the outstanding write
    /// acquisition; the lock counters are untouched.
    pub fn write(&mut self, v: T)
        requires
            old(self).writer_held(),
        ensures
            final(self).payload() == v,
            final(self).raw_state() == old(self).raw_state(),
    {
        self.value = v;
    }

    /// Consumes the wrapper and hands the payload out, bypassing the lock:
    /// ownership of the whole wrapper is the proof that no one else can
    /// hold an acquisition.
    pub fn into_inner(self) -> (v: T)
        ensures
            v == self.payload(),
    {
        let GuardedLock { raw: _, value } = self;
        value
    }

    /// Direct mutable access to the payload without touching the lock
    /// counters, for a holder of the wrapper itself while nothing is
    /// acquired — single-threaded mutation before the lock is shared.
    pub fn get_mut(&mut self) -> (r: &mut T)
        requires
            old(self).unlocked(),
        ensures
            *r == old(self).payload(),
            final(self).payload() == *final(r),
            final(self).raw_state() == old(self).raw_state(),
            final(self).unlocked() == old(self).unlocked(),
            final(self).wf() == old(self).wf(),
    {
        &mut self.value
    }
}

} // verus!
