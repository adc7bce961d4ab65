//! The phase-fair lock as a verified state machine over its four counters.
//!
//! [`RawPFLock`] holds the four protocol words as owned values and each
//! operation performs exactly the counter arithmetic of the concurrent
//! protocol — the same fetch-and-add strides, ticket draws, mark
//! publications and mask clears, in the same order.  What the concurrent
//! protocol awaits by spinning, an operation here demands as its
//! precondition, and its contract proves that under that precondition every
//! spin predicate is already false at the point the protocol would poll it:
//! a reader is admitted at once when no writer is present, a writer's
//! ticket is already admitted and the readers already drained when the lock
//! is free.  The postconditions give the exact counter transition, so the
//! operations compose into proofs about whole histories of the lock.

use crate::protocol::{
    clear_low, lemma_clear_low_step, lemma_entry_bits_are_mark, lemma_reader_stride_step,
    lemma_ticket_step, lemma_wbits_eq_low, lemma_wbits_is_mask, lemma_word_parts,
    lemma_writer_mark_step, low_byte, rcount, spins_for, wbits, wmark, PHID, PRES,
    READER_COUNT_SPAN, RINC, WBITS, ZERO_MASK,
};
use vstd::prelude::*;

verus! {

/// A phase-fair reader-writer lock: four machine-word counters, all zero at
/// construction, each only ever advanced — except that a departing writer
/// clears the low byte of `rin`.
///
/// `rin` packs the count of read registrations (above the low byte) with
/// the present writer's two bits; `rout` counts read departures; `win`
/// dispenses writer tickets; `wout` admits them in FIFO order.  Only
/// differences and equalities of the counters carry meaning, so their
/// wrapping is harmless, and every contract below is proved across the
/// wrap.
#[derive(Clone, Copy, PartialEq, Eq, Debug)]
pub struct RawPFLock {
    /// Read registrations, packed with the writer bits in the low byte.
    pub rin: u64,
    /// Read departures, in the same units as `rin`'s reader count.
    pub rout: u64,
    /// Writer ticket dispenser: the next ticket to hand out.
    pub win: u64,
    /// Writer admission counter: the ticket allowed to proceed.
    pub wout: u64,
}

impl RawPFLock {
    /// True while a writer has announced itself in `rin`'s low byte,
    /// waiting for readers to drain or holding the lock.
    pub open spec fn writer_active(self) -> bool {
        low_byte(self.rin) != 0
    }

    /// The number of readers currently holding the lock: registrations not
    /// yet matched by a departure, read off the wrapping difference of the
    /// two reader counts.
    pub open spec fn active_readers(self) -> int {
        if rcount(self.rin) >= rcount(self.rout) {
            rcount(self.rin) - rcount(self.rout)
        } else {
            rcount(self.rin) - rcount(self.rout) + READER_COUNT_SPAN
        }
    }

    /// The protocol's state invariant.
    ///
    /// `rout` never carries writer bits; `rin`'s low byte is clear or holds
    /// a writer's mark (present bit plus phase id); while a writer is
    /// active the ticket dispenser is exactly one ahead of the admission
    /// counter and no reader holds the lock — otherwise the two ticket
    /// counters agree.  Construction establishes it and every operation
    /// preserves it.
    pub open spec fn wf(self) -> bool {
        &&& low_byte(self.rout) == 0
        &&& (low_byte(self.rin) == 0 || low_byte(self.rin) == 2 || low_byte(self.rin) == 3)
        &&& (if self.writer_active() {
            self.win == self.wout.wrapping_add(1) && self.active_readers() == 0
        } else {
            self.win == self.wout
        })
    }

    /// The counter transition of a read registration: `rin` advances by
    /// the reader stride.
    pub open spec fn read_acquire_t(self) -> RawPFLock {
        RawPFLock { rin: self.rin.wrapping_add(RINC), rout: self.rout, win: self.win, wout: self.wout }
    }

    /// The counter transition of a read departure: `rout` advances by the
    /// reader stride.
    pub open spec fn read_release_t(self) -> RawPFLock {
        RawPFLock { rin: self.rin, rout: self.rout.wrapping_add(RINC), win: self.win, wout: self.wout }
    }

    /// The counter transition of a write acquisition: ticket `win` is drawn
    /// and that ticket's mark enters `rin`'s low byte.
    pub open spec fn write_acquire_t(self) -> RawPFLock {
        RawPFLock {
            rin: self.rin.wrapping_add(wmark(self.win) as u64),
            rout: self.rout,
            win: self.win.wrapping_add(1),
            wout: self.wout,
        }
    }

    /// The counter transition of a write release: `rin`'s low byte is
    /// cleared and `wout` admits the next ticket.
    pub open spec fn write_release_t(self) -> RawPFLock {
        RawPFLock {
            rin: clear_low(self.rin),
            rout: self.rout,
            win: self.win,
            wout: self.wout.wrapping_add(1),
        }
    }

    /// The counter transition of an abandoned write attempt: the drawn
    /// ticket is retired at once by advancing `wout` past it, so the
    /// abandoned slot never blocks the writer queue; the reader word is
    /// left as it was.
    pub open spec fn ticket_abandon_t(self) -> RawPFLock {
        RawPFLock {
            rin: self.rin,
            rout: self.rout,
            win: self.win.wrapping_add(1),
            wout: self.wout.wrapping_add(1),
        }
    }

    /// A read registration from a writer-free well-formed state admits the
    /// reader at once — the spin predicate on the writer bits it observed
    /// is false — and raises the active count by exactly one.
    pub proof fn lemma_read_acquire_step(self)
        requires
            self.wf(),
            !self.writer_active(),
            self.active_readers() < READER_COUNT_SPAN - 1,
        ensures
            self.read_acquire_t().wf(),
            !self.read_acquire_t().writer_active(),
            self.read_acquire_t().active_readers() == self.active_readers() + 1,
            !spins_for(wbits(self.rin), self.read_acquire_t().rin),
    {
        lemma_reader_stride_step(self.rin);
        lemma_word_parts(self.rin);
        lemma_word_parts(self.rout);
        lemma_wbits_eq_low(self.rin);
    }

    /// A read departure lowers the active count by exactly one and leaves
    /// the writer bits of both words untouched.
    pub proof fn lemma_read_release_step(self)
        requires
            self.wf(),
            self.active_readers() >= 1,
        ensures
            self.read_release_t().wf(),
            self.read_release_t().writer_active() == self.writer_active(),
            self.read_release_t().active_readers() == self.active_readers() - 1,
    {
        lemma_reader_stride_step(self.rout);
        lemma_word_parts(self.rin);
        lemma_word_parts(self.rout);
    }

    /// A speculative read registration retracted by an immediate departure
    /// preserves the invariant and everything observable: writer presence
    /// and the number of active readers — whether or not a writer is
    /// present while it happens.
    pub proof fn lemma_read_retract_step(self)
        requires
            self.wf(),
            self.active_readers() < READER_COUNT_SPAN - 1,
        ensures
            self.read_acquire_t().read_release_t().wf(),
            self.read_acquire_t().read_release_t().writer_active() == self.writer_active(),
            self.read_acquire_t().read_release_t().active_readers() == self.active_readers(),
    {
        lemma_reader_stride_step(self.rin);
        lemma_reader_stride_step(self.rout);
        lemma_word_parts(self.rin);
        lemma_word_parts(self.rout);
    }

    /// In a well-formed state the lock is free of readers exactly when the
    /// two reader words are equal — the equality the writer's drain wait
    /// polls for.
    pub proof fn lemma_drained_iff_words_equal(self)
        requires
            self.wf(),
            !self.writer_active(),
        ensures
            (self.rin == self.rout) == (self.active_readers() == 0),
    {
        lemma_word_parts(self.rin);
        lemma_word_parts(self.rout);
    }

    /// A write acquisition from a free well-formed state: the drawn ticket
    /// is already admitted (`win == wout`), the drain snapshot is already
    /// matched (`rin == rout`), and the published mark is the ticket's.
    pub proof fn lemma_write_acquire_step(self)
        requires
            self.wf(),
            !self.writer_active(),
            self.active_readers() == 0,
        ensures
            self.win == self.wout,
            self.rin == self.rout,
            self.write_acquire_t().wf(),
            self.write_acquire_t().writer_active(),
            self.write_acquire_t().active_readers() == 0,
            low_byte(self.write_acquire_t().rin) == wmark(self.win),
    {
        self.lemma_drained_iff_words_equal();
        lemma_writer_mark_step(self.rin, wmark(self.win) as u64);
        lemma_word_parts(self.rout);
    }

    /// A write release from a state with an active writer: the mark leaves
    /// `rin`, the next ticket is admitted, and no reader appears out of
    /// nowhere.
    pub proof fn lemma_write_release_step(self)
        requires
            self.wf(),
            self.writer_active(),
        ensures
            self.write_release_t().wf(),
            !self.write_release_t().writer_active(),
            self.write_release_t().active_readers() == 0,
    {
        lemma_clear_low_step(self.rin);
        lemma_word_parts(self.rout);
        lemma_ticket_step(self.wout);
    }

    /// Abandoning a drawn ticket preserves the invariant and everything a
    /// later acquisition can observe: writer presence and active readers.
    pub proof fn lemma_ticket_abandon_step(self)
        requires
            self.wf(),
        ensures
            self.ticket_abandon_t().wf(),
            self.ticket_abandon_t().writer_active() == self.writer_active(),
            self.ticket_abandon_t().active_readers() == self.active_readers(),
    {
        lemma_ticket_step(self.wout);
    }

    /// Creates the lock with all four counters at zero: no readers, no
    /// writer, and ticket zero is the next to be drawn and admitted.
    pub fn new() -> (r: RawPFLock)
        ensures
            r == (RawPFLock { rin: 0, rout: 0, win: 0, wout: 0 }),
            r.wf(),
            !r.writer_active(),
            r.active_readers() == 0,
    {
        proof {
            lemma_word_parts(0);
        }
        RawPFLock { rin: 0, rout: 0, win: 0, wout: 0 }
    }

    /// Acquires the lock for reading.
    ///
    /// The reader registers by adding its stride to `rin`.  The concurrent
    /// protocol then spins while [`spins_for`] holds of the writer bits it
    /// observed in the fetched value; under this operation's precondition
    /// no writer is present, so the observed bits are zero and the
    /// contract proves the spin predicate false at the first poll.
    pub fn lock_shared(&mut self)
        requires
            old(self).wf(),
            !old(self).writer_active(),
            old(self).active_readers() < READER_COUNT_SPAN - 1,
        ensures
            *final(self) == old(self).read_acquire_t(),
            final(self).wf(),
            !final(self).writer_active(),
            final(self).active_readers() == old(self).active_readers() + 1,
            !spins_for(wbits(old(self).rin), final(self).rin),
    {
        proof {
            old(self).lemma_read_acquire_step();
        }
        let prev: u64 = self.rin;
        self.rin = prev.wrapping_add(RINC);
    }

    /// Releases a read acquisition: the departing reader adds its stride
    /// to `rout`.  Never waits.
    pub fn unlock_shared(&mut self)
        requires
            old(self).wf(),
            old(self).active_readers() >= 1,
        ensures
            *final(self) == old(self).read_release_t(),
            final(self).wf(),
            final(self).writer_active() == old(self).writer_active(),
            final(self).active_readers() == old(self).active_readers() - 1,
    {
        proof {
            old(self).lemma_read_release_step();
        }
        self.rout = self.rout.wrapping_add(RINC);
    }

    /// Attempts to acquire for reading without waiting.
    ///
    /// The reader registers speculatively, exactly as [`Self::lock_shared`]
    /// does; if the writer bits it fetched were set and unchanged, the
    /// registration is retracted by an immediate matching departure before
    /// failure is reported.  The attempt succeeds exactly when no writer
    /// was present, and on failure the counters show the same readers and
    /// the same writer as before the call.
    pub fn try_lock_shared(&mut self) -> (ok: bool)
        requires
            old(self).wf(),
            old(self).active_readers() < READER_COUNT_SPAN - 1,
        ensures
            ok == !old(self).writer_active(),
            ok ==> *final(self) == old(self).read_acquire_t(),
            !ok ==> *final(self) == old(self).read_acquire_t().read_release_t(),
            final(self).wf(),
            final(self).writer_active() == old(self).writer_active(),
            final(self).active_readers() == old(self).active_readers() + if ok {
                1int
            } else {
                0int
            },
    {
        proof {
            lemma_wbits_is_mask(old(self).rin);
            lemma_wbits_eq_low(old(self).rin);
            lemma_reader_stride_step(old(self).rin);
        }
        let prev: u64 = self.rin;
        self.rin = prev.wrapping_add(RINC);
        let w: u64 = prev & WBITS;
        proof {
            lemma_wbits_is_mask(self.rin);
            lemma_wbits_eq_low(self.rin);
        }
        if w == 0 || w != (self.rin & WBITS) {
            proof {
                old(self).lemma_read_acquire_step();
            }
            true
        } else {
            proof {
                old(self).lemma_read_retract_step();
            }
            self.rout = self.rout.wrapping_add(RINC);
            false
        }
    }

    /// Acquires the lock for writing.
    ///
    /// The writer draws ticket `win`.  The concurrent protocol then waits
    /// for `wout` to reach the ticket and, after publishing its mark in
    /// `rin`, for `rout` to reach the drain snapshot it fetched; under this
    /// operation's precondition the lock is free, so both equalities are
    /// proved to hold at the first poll and the writer is admitted at
    /// once, with its mark — present bit plus the ticket's phase — in
    /// `rin`'s low byte.
    pub fn lock_exclusive(&mut self)
        requires
            old(self).wf(),
            !old(self).writer_active(),
            old(self).active_readers() == 0,
        ensures
            *final(self) == old(self).write_acquire_t(),
            final(self).wf(),
            final(self).writer_active(),
            final(self).active_readers() == 0,
            low_byte(final(self).rin) == wmark(old(self).win),
            final(self).win == old(self).win.wrapping_add(1),
    {
        proof {
            old(self).lemma_write_acquire_step();
            lemma_entry_bits_are_mark(old(self).win);
        }
        let wticket: u64 = self.win;
        self.win = wticket.wrapping_add(1);
        // FIFO admission: the drawn ticket is already the one admitted
        assert(wticket == self.wout);
        let w: u64 = PRES | (wticket & PHID);
        let rticket: u64 = self.rin;
        self.rin = rticket.wrapping_add(w);
        // reader drain: every registered reader has already departed
        assert(rticket == self.rout);
    }

    /// Releases a write acquisition: clears `rin`'s low byte — the
    /// departure that waiting readers spin on — and admits the next writer
    /// ticket through `wout`.
    pub fn unlock_exclusive(&mut self)
        requires
            old(self).wf(),
            old(self).writer_active(),
        ensures
            *final(self) == old(self).write_release_t(),
            final(self).wf(),
            !final(self).writer_active(),
            final(self).active_readers() == 0,
            final(self).wout == old(self).wout.wrapping_add(1),
    {
        proof {
            old(self).lemma_write_release_step();
            lemma_clear_low_step(old(self).rin);
        }
        self.rin = self.rin & ZERO_MASK;
        self.wout = self.wout.wrapping_add(1);
    }

    /// Attempts to acquire for writing without waiting.
    ///
    /// The writer draws a ticket; if the ticket is not already admitted, a
    /// writer is active, and the ticket is abandoned — `wout` is advanced
    /// past it so the queue is never blocked by the attempt.  Otherwise the
    /// mark is published; if the drain snapshot is not already matched,
    /// readers hold the lock, and both the mark and the ticket are rolled
    /// back.  The attempt succeeds exactly when no read or write
    /// acquisition is outstanding, and on failure nothing a later
    /// acquisition can observe has changed.
    pub fn try_lock_exclusive(&mut self) -> (ok: bool)
        requires
            old(self).wf(),
        ensures
            ok == (!old(self).writer_active() && old(self).active_readers() == 0),
            ok ==> *final(self) == old(self).write_acquire_t(),
            !ok ==> *final(self) == old(self).ticket_abandon_t(),
            final(self).wf(),
            ok ==> final(self).writer_active() && final(self).active_readers() == 0,
            !ok ==> final(self).writer_active() == old(self).writer_active()
                && final(self).active_readers() == old(self).active_readers(),
    {
        proof {
            old(self).lemma_ticket_abandon_step();
            lemma_ticket_step(old(self).wout);
        }
        let wticket: u64 = self.win;
        self.win = wticket.wrapping_add(1);
        if wticket != self.wout {
            // a writer holds the lock: retire the abandoned ticket
            self.wout = self.wout.wrapping_add(1);
            return false;
        }
        proof {
            old(self).lemma_drained_iff_words_equal();
            lemma_entry_bits_are_mark(wticket);
            lemma_writer_mark_step(old(self).rin, wmark(wticket) as u64);
        }
        let w: u64 = PRES | (wticket & PHID);
        let rticket: u64 = self.rin;
        self.rin = rticket.wrapping_add(w);
        if rticket != self.rout {
            // readers hold the lock: roll back the mark and the ticket
            proof {
                lemma_clear_low_step(rticket.wrapping_add(w));
                lemma_word_parts(old(self).rin);
                lemma_word_parts(clear_low(rticket.wrapping_add(w)));
            }
            self.rin = self.rin & ZERO_MASK;
            self.wout = self.wout.wrapping_add(1);
            return false;
        }
        proof {
            old(self).lemma_write_acquire_step();
        }
        true
    }
}

impl Default for RawPFLock {
    /// The all-zero lock state, fit for process-wide storage: equal to
    /// what [`RawPFLock::new`] constructs.
    fn default() -> (r: RawPFLock)
        ensures
            r == (RawPFLock { rin: 0, rout: 0, win: 0, wout: 0 }),
            r.wf(),
            !r.writer_active(),
            r.active_readers() == 0,
    {
        RawPFLock::new()
    }
}

} // verus!
