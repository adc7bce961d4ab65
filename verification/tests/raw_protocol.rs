use pflock::protocol::{reader_must_wait, writer_entry_bits};
use pflock::raw::RawPFLock;

#[test]
fn counters_start_at_zero() {
    let l = RawPFLock::new();
    assert_eq!(l.rin, 0);
    assert_eq!(l.rout, 0);
    assert_eq!(l.win, 0);
    assert_eq!(l.wout, 0);
}

#[test]
fn default_matches_new() {
    let l = RawPFLock::default();
    assert_eq!(l, RawPFLock::new());
}

#[test]
fn reader_strides_rin_then_rout() {
    let mut l = RawPFLock::new();
    l.lock_shared();
    assert_eq!(l.rin, 0x100);
    assert_eq!(l.rout, 0);
    l.unlock_shared();
    assert_eq!(l.rin, 0x100);
    assert_eq!(l.rout, 0x100);
    assert_eq!(l.win, 0);
    assert_eq!(l.wout, 0);
}

#[test]
fn writer_marks_and_tickets() {
    let mut l = RawPFLock::new();
    l.lock_exclusive();
    // ticket 0 drawn, its mark (present bit, phase id 0) is in rin's low byte
    assert_eq!(l.rin, 0x2);
    assert_eq!(l.win, 1);
    assert_eq!(l.wout, 0);
    l.unlock_exclusive();
    // mark cleared, ticket 1 admitted next
    assert_eq!(l.rin, 0);
    assert_eq!(l.win, 1);
    assert_eq!(l.wout, 1);
}

#[test]
fn phase_id_alternates_between_writers() {
    let mut l = RawPFLock::new();
    l.lock_exclusive();
    assert_eq!(l.rin & 0xff, 0x2); // ticket 0: phase id 0
    l.unlock_exclusive();
    l.lock_exclusive();
    assert_eq!(l.rin & 0xff, 0x3); // ticket 1: phase id 1
    l.unlock_exclusive();
    l.lock_exclusive();
    assert_eq!(l.rin & 0xff, 0x2); // ticket 2: phase id 0 again
    l.unlock_exclusive();
}

#[test]
fn many_readers_share_the_lock() {
    let mut l = RawPFLock::new();
    for n in 1..=5u64 {
        l.lock_shared();
        assert_eq!(l.rin >> 8, n);
    }
    assert!(!l.try_lock_exclusive());
    for n in 1..=5u64 {
        l.unlock_shared();
        assert_eq!(l.rout >> 8, n);
    }
    assert!(l.try_lock_exclusive());
}

#[test]
fn try_write_fails_while_read_held() {
    let mut l = RawPFLock::new();
    l.lock_shared();
    assert!(!l.try_lock_exclusive());
    // the abandoned ticket was retired at once
    assert_eq!(l.win, l.wout);
    l.unlock_shared();
    assert!(l.try_lock_exclusive());
}

#[test]
fn try_write_fails_while_write_held() {
    let mut l = RawPFLock::new();
    l.lock_exclusive();
    assert!(!l.try_lock_exclusive());
    l.unlock_exclusive();
    assert!(l.try_lock_exclusive());
}

#[test]
fn try_read_fails_only_while_write_held() {
    let mut l = RawPFLock::new();
    l.lock_shared();
    // a second reader gets in beside the first
    assert!(l.try_lock_shared());
    l.unlock_shared();
    l.unlock_shared();
    l.lock_exclusive();
    assert!(!l.try_lock_shared());
    l.unlock_exclusive();
    assert!(l.try_lock_shared());
    l.unlock_shared();
}

#[test]
fn failed_try_read_retracts_registration() {
    let mut l = RawPFLock::new();
    l.lock_exclusive();
    assert!(!l.try_lock_shared());
    // the speculative registration is matched by an immediate departure
    assert_eq!(l.rin >> 8, 1);
    assert_eq!(l.rout >> 8, 1);
    l.unlock_exclusive();
    assert!(l.try_lock_shared());
}

#[test]
fn abandoned_ticket_never_blocks_queue() {
    let mut l = RawPFLock::new();
    l.lock_exclusive(); // ticket 0
    assert!(!l.try_lock_exclusive()); // ticket 1 drawn and abandoned
    assert_eq!(l.win, 2);
    assert_eq!(l.wout, 1);
    l.unlock_exclusive();
    assert_eq!(l.wout, 2);
    // the queue has moved past the abandoned ticket: ticket 2 is admitted
    l.lock_exclusive();
    assert_eq!(l.rin & 0xff, 0x2);
    l.unlock_exclusive();
}

#[test]
fn round_trip_restores_acquirability() {
    let mut l = RawPFLock::new();
    l.lock_shared();
    l.unlock_shared();
    // the counts have grown but the lock is as free as at construction
    assert_eq!(l.rin >> 8, l.rout >> 8);
    assert_eq!(l.rin & 0xff, 0);
    assert!(l.try_lock_exclusive());
    l.unlock_exclusive();
    l.lock_exclusive();
    l.unlock_exclusive();
    assert!(l.try_lock_shared());
}

#[test]
fn reader_waits_only_for_observed_writer() {
    // a reader that saw no writer bits never waits
    assert!(!reader_must_wait(0, 0x2345_0002));
    // writer ticket 4 publishes mark 0b10; a reader that observed it...
    let w = writer_entry_bits(4);
    assert_eq!(w, 0x2);
    // ...waits while that same mark stands,
    assert!(reader_must_wait(w, 0x7700_0002));
    // stops the moment the writer departs and the byte clears,
    assert!(!reader_must_wait(w, 0x7700_0000));
    // and never waits for the successor writer: ticket 5's phase differs
    assert_eq!(writer_entry_bits(5), 0x3);
    assert!(!reader_must_wait(w, 0x7800_0003));
}

#[test]
fn counters_wrap_at_word_boundary() {
    // a lock whose counters stand just below the word boundary: the
    // reader counts and the ticket counters all wrap through zero without
    // disturbing the protocol
    let mut l = RawPFLock {
        rin: 0xffff_ffff_ffff_ff00,
        rout: 0xffff_ffff_ffff_ff00,
        win: u64::MAX,
        wout: u64::MAX,
    };
    l.lock_shared();
    assert_eq!(l.rin, 0);
    l.unlock_shared();
    assert_eq!(l.rout, 0);
    l.lock_exclusive();
    // ticket u64::MAX has phase id 1; the dispenser wraps to 0
    assert_eq!(l.rin, 0x3);
    assert_eq!(l.win, 0);
    assert_eq!(l.wout, u64::MAX);
    l.unlock_exclusive();
    assert_eq!(l.rin, 0);
    assert_eq!(l.wout, 0);
    assert!(l.try_lock_shared());
}
