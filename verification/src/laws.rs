//! The guarantees of the phase-fair protocol, stated and proved over the
//! counter transitions of [`crate::raw::RawPFLock`].
//!
//! Each law quantifies over every lock state it speaks of — well-formed
//! states for the laws about whole operations, arbitrary counter words for
//! the laws about the spin predicate — so it covers any history the
//! protocol can produce, including states whose counters have wrapped.

use crate::protocol::{
    lemma_reader_stride_step, lemma_ticket_step, lemma_wbits_eq_low, lemma_word_parts,
    lemma_writer_mark_step, low_byte, rcount, spins_for, wbits, wmark, READER_COUNT_SPAN,
};
use crate::raw::RawPFLock;
use vstd::prelude::*;

verus! {

use vstd::arithmetic::div_mod::{
    lemma_fundamental_div_mod, lemma_fundamental_div_mod_converse, lemma_small_mod,
};

/// Mutual exclusion.  In every well-formed state an active writer excludes
/// all readers — write access never coexists with read access — and the
/// ticket dispenser stands exactly one ahead of the admission counter, so
/// exactly one drawn ticket can be the admitted one: no two writers hold
/// the lock at once.
pub proof fn lemma_mutual_exclusion(s: RawPFLock)
    requires
        s.wf(),
    ensures
        s.writer_active() ==> s.active_readers() == 0,
        s.writer_active() ==> s.win == s.wout.wrapping_add(1),
        !s.writer_active() ==> s.win == s.wout,
{
}

/// The state after `n` successive read registrations.
pub open spec fn after_read_acquires(s: RawPFLock, n: nat) -> RawPFLock
    decreases n,
{
    if n == 0 {
        s
    } else {
        after_read_acquires(s, (n - 1) as nat).read_acquire_t()
    }
}

/// Reader concurrency.  From any well-formed state with no writer present,
/// any number of readers up to the counter span may register in turn and
/// every one of them is admitted at once — none spins, none waits for
/// another reader — leaving exactly that many more readers holding the
/// lock together.
pub proof fn lemma_readers_accumulate(s: RawPFLock, n: nat)
    requires
        s.wf(),
        !s.writer_active(),
        s.active_readers() + n < READER_COUNT_SPAN - 1,
    ensures
        after_read_acquires(s, n).wf(),
        !after_read_acquires(s, n).writer_active(),
        after_read_acquires(s, n).active_readers() == s.active_readers() + n,
        n > 0 ==> !spins_for(
            wbits(after_read_acquires(s, (n - 1) as nat).rin),
            after_read_acquires(s, n).rin,
        ),
    decreases n,
{
    if n > 0 {
        lemma_readers_accumulate(s, (n - 1) as nat);
        after_read_acquires(s, (n - 1) as nat).lemma_read_acquire_step();
    }
}

/// Writer FIFO.  Writers gain the lock in exactly the order their tickets
/// were drawn: in a free well-formed state the ticket about to be drawn is
/// the one already admitted, and once that writer has acquired and
/// released, the head of the queue has moved to the immediate successor
/// ticket and to no other.
pub proof fn lemma_writer_fifo(s: RawPFLock)
    requires
        s.wf(),
        !s.writer_active(),
        s.active_readers() == 0,
    ensures
        s.win == s.wout,
        s.write_acquire_t().write_release_t().win == s.win.wrapping_add(1),
        s.write_acquire_t().write_release_t().wout == s.wout.wrapping_add(1),
        s.write_acquire_t().write_release_t().wf(),
        !s.write_acquire_t().write_release_t().writer_active(),
{
    s.lemma_write_acquire_step();
    s.write_acquire_t().lemma_write_release_step();
}

/// Phase-fair reader bound.  A reader that registered while the writer
/// holding ticket `t` was present spins on the mark it observed,
/// `wmark(t)`.  The departure of that one writer clears the mark, and the
/// successor writer publishes the opposite phase id, so the spin predicate
/// is false in both states: the reader is delayed by at most the single
/// writer it observed, never by writers queued behind it.
pub proof fn lemma_phase_fair_bound(t: u64, rin_after_departure: u64, rin_under_successor: u64)
    requires
        low_byte(rin_after_departure) == 0,
        low_byte(rin_under_successor) == wmark(t.wrapping_add(1)),
    ensures
        !spins_for(wmark(t), rin_after_departure),
        !spins_for(wmark(t), rin_under_successor),
{
    lemma_wbits_eq_low(rin_after_departure);
    lemma_wbits_eq_low(rin_under_successor);
    lemma_ticket_step(t);
}

/// The state after `n` successive read departures.
pub open spec fn after_read_releases(s: RawPFLock, n: nat) -> RawPFLock
    decreases n,
{
    if n == 0 {
        s
    } else {
        after_read_releases(s, (n - 1) as nat).read_release_t()
    }
}

/// Incrementing a number steps its remainder by the span cyclically.
proof fn lemma_mod_succ(x: int)
    requires
        x >= 0,
    ensures
        (x + 1) % (READER_COUNT_SPAN as int) == if x % (READER_COUNT_SPAN as int) == READER_COUNT_SPAN - 1 {
            0int
        } else {
            x % (READER_COUNT_SPAN as int) + 1
        },
{
    let m = READER_COUNT_SPAN as int;
    lemma_fundamental_div_mod(x, m);
    vstd::arithmetic::div_mod::lemma_mod_pos_bound(x, m);
    if x % m == m - 1 {
        lemma_fundamental_div_mod_converse(x + 1, m, x / m + 1, 0);
    } else {
        lemma_fundamental_div_mod_converse(x + 1, m, x / m, x % m + 1);
    }
}

/// A run of departures touches only `rout`: its low byte stays clear if it
/// was, and its reader count advances by the length of the run, modulo the
/// count's span.
proof fn lemma_release_run(s: RawPFLock, n: nat)
    ensures
        after_read_releases(s, n).rin == s.rin,
        after_read_releases(s, n).win == s.win,
        after_read_releases(s, n).wout == s.wout,
        low_byte(after_read_releases(s, n).rout) == low_byte(s.rout),
        rcount(after_read_releases(s, n).rout) == (rcount(s.rout) + n) % (
        READER_COUNT_SPAN as int),
    decreases n,
{
    lemma_word_parts(s.rout);
    if n == 0 {
        lemma_small_mod(rcount(s.rout) as nat, READER_COUNT_SPAN as nat);
    } else {
        lemma_release_run(s, (n - 1) as nat);
        let prev = after_read_releases(s, (n - 1) as nat);
        lemma_reader_stride_step(prev.rout);
        lemma_word_parts(prev.rout);
        lemma_mod_succ(rcount(s.rout) + (n - 1));
    }
}

/// Writer drain.  A writer announces itself over `n` readers by the
/// transition [`RawPFLock::write_acquire_t`]: its mark enters `rin` and the
/// prior reader word is its drain snapshot.  It is admitted exactly when
/// the `n` readers it counted have all departed: after every shorter run
/// of departures the drain equality `rout == snapshot` is still false, and
/// after exactly `n` it holds — while none of the departures disturbs the
/// published mark or the ticket counters.
pub proof fn lemma_writer_drain(s: RawPFLock, n: nat, j: nat)
    requires
        s.wf(),
        !s.writer_active(),
        s.active_readers() == n,
        j <= n,
    ensures
        low_byte(after_read_releases(s.write_acquire_t(), j).rin) == wmark(s.win),
        after_read_releases(s.write_acquire_t(), j).win == s.win.wrapping_add(1),
        after_read_releases(s.write_acquire_t(), j).wout == s.wout,
        (after_read_releases(s.write_acquire_t(), j).rout == s.rin) == (j == n),
{
    let a = s.write_acquire_t();
    lemma_writer_mark_step(s.rin, wmark(s.win) as u64);
    lemma_release_run(a, j);
    lemma_word_parts(s.rin);
    lemma_word_parts(s.rout);
    lemma_word_parts(after_read_releases(a, j).rout);
    let b = rcount(s.rout);
    let target = rcount(s.rin);
    let span = READER_COUNT_SPAN as int;
    if b + j < span {
        lemma_small_mod((b + j) as nat, span as nat);
    } else {
        lemma_fundamental_div_mod_converse(b + j, span, 1, b + j - span);
    }
    if target >= b {
        assert(target == b + n);
    } else {
        assert(target == b + n - span);
    }
}

/// Late readers are blocked and harmless.  A reader that registers while a
/// writer's mark stands in `rin` observes that mark and spins on it; its
/// registration touches neither the departure word — so the writer's drain
/// equality is unaffected and the writer is not delayed — nor the mark
/// itself.
pub proof fn lemma_late_reader_blocked(t: RawPFLock)
    requires
        low_byte(t.rin) == 2 || low_byte(t.rin) == 3,
    ensures
        t.read_acquire_t().rout == t.rout,
        low_byte(t.read_acquire_t().rin) == low_byte(t.rin),
        spins_for(wbits(t.rin), t.read_acquire_t().rin),
{
    lemma_reader_stride_step(t.rin);
    lemma_wbits_eq_low(t.rin);
    lemma_wbits_eq_low(t.read_acquire_t().rin);
}

/// Read round trip.  One read acquisition followed by its release returns
/// the lock to a state indistinguishable from the original for every later
/// acquisition: well formed, the same readers, the same writer presence —
/// only the monotonic registration counts have grown.
pub proof fn lemma_read_round_trip(s: RawPFLock)
    requires
        s.wf(),
        !s.writer_active(),
        s.active_readers() < READER_COUNT_SPAN - 1,
    ensures
        s.read_acquire_t().read_release_t().wf(),
        s.read_acquire_t().read_release_t().active_readers() == s.active_readers(),
        !s.read_acquire_t().read_release_t().writer_active(),
{
    s.lemma_read_acquire_step();
    s.read_acquire_t().lemma_read_release_step();
}

/// Write round trip.  One write acquisition followed by its release
/// returns the lock to a state indistinguishable from the original for
/// every later acquisition — in particular a writer that panicked inside
/// its critical section and released on unwind leaves the lock as
/// acquirable as before, with no poisoned state.
pub proof fn lemma_write_round_trip(s: RawPFLock)
    requires
        s.wf(),
        !s.writer_active(),
        s.active_readers() == 0,
    ensures
        s.write_acquire_t().write_release_t().wf(),
        s.write_acquire_t().write_release_t().active_readers() == 0,
        !s.write_acquire_t().write_release_t().writer_active(),
{
    s.lemma_write_acquire_step();
    s.write_acquire_t().lemma_write_release_step();
}

} // verus!
