//! The counter encoding of the phase-fair protocol.
//!
//! A reader-writer lock state is four machine words.  `rin` packs a running
//! count of read registrations (all bits above the low byte, advanced by
//! [`RINC`] per reader) with two low-order writer bits: [`PRES`], set while a
//! writer is waiting or holds the lock, and [`PHID`], the phase id that
//! alternates between consecutive writers.  `rout` counts read departures in
//! the same units.  `win` dispenses writer tickets and `wout` admits them in
//! order.
//!
//! This module defines the encoding as arithmetic on the words (low byte,
//! reader count, writer bits), together with the two computations every
//! implementation of the protocol performs while spinning: the reader's
//! wait predicate and the writer's entry bits.

use vstd::prelude::*;

verus! {

use vstd::arithmetic::div_mod::{
    lemma_fundamental_div_mod, lemma_fundamental_div_mod_converse, lemma_mod_pos_bound,
};

/// Stride added to `rin` (on registration) and `rout` (on departure) per
/// reader; it leaves the low byte of the word untouched.
pub const RINC: u64 = 0x100;

/// The number of distinct reader counts a word can hold; the registration
/// and departure counts wrap at this bound.
pub const READER_COUNT_SPAN: u64 = 0x100_0000_0000_0000;

/// Mask of the two writer bits in `rin`'s low byte.
pub const WBITS: u64 = 0x3;

/// Writer-present bit of `rin`: set exactly while a writer is waiting for
/// readers to drain or holds the lock.
pub const PRES: u64 = 0x2;

/// Phase-id bit of `rin`: the low bit of the ticket of the writer present.
pub const PHID: u64 = 0x1;

/// Mask that clears the low byte of `rin` when a writer departs.
pub const ZERO_MASK: u64 = 0xffff_ffff_ffff_ff00;

/// The low byte of a word: writer bits live here, reader counts above it.
pub open spec fn low_byte(x: u64) -> int {
    (x as int) % 256
}

/// The reader count held in the bits above the low byte.
pub open spec fn rcount(x: u64) -> int {
    (x as int) / 256
}

/// The two writer bits of a word.
pub open spec fn wbits(x: u64) -> int {
    (x as int) % 4
}

/// The writer bits a writer holding ticket `t` publishes in `rin`:
/// present bit set, phase id equal to the ticket's low bit.
pub open spec fn wmark(t: u64) -> int {
    2 + (t as int) % 2
}

/// The reader's spin predicate: a reader that observed writer bits `w` when
/// it registered keeps waiting exactly while `w` was nonzero and the writer
/// bits of `rin` still equal `w` (neither a departure nor a phase change).
pub open spec fn spins_for(w: int, rin_now: u64) -> bool {
    w != 0 && w == wbits(rin_now)
}

/// A word with its low byte cleared, as left in `rin` by a departing writer.
pub open spec fn clear_low(x: u64) -> u64 {
    ((x as int) - low_byte(x)) as u64
}

/// Every word splits uniquely into its reader count and its low byte.
pub proof fn lemma_word_parts(x: u64)
    ensures
        x == 256 * rcount(x) + low_byte(x),
        0 <= low_byte(x) < 256,
        0 <= rcount(x) < READER_COUNT_SPAN,
{
    lemma_fundamental_div_mod(x as int, 256);
    lemma_mod_pos_bound(x as int, 256);
}

/// Adding the reader stride to a word leaves its low byte untouched and
/// advances its reader count by one, wrapping at the count's span.
pub proof fn lemma_reader_stride_step(x: u64)
    ensures
        low_byte(x.wrapping_add(RINC)) == low_byte(x),
        rcount(x.wrapping_add(RINC)) == if rcount(x) == READER_COUNT_SPAN - 1 {
            0int
        } else {
            rcount(x) + 1
        },
{
    lemma_word_parts(x);
    let y = x.wrapping_add(RINC);
    if x + 256 > u64::MAX {
        assert(y == x + 256 - 0x1_0000_0000_0000_0000);
        assert(rcount(x) == READER_COUNT_SPAN - 1);
        lemma_fundamental_div_mod_converse(y as int, 256, 0, low_byte(x));
    } else {
        assert(y == x + 256);
        assert(rcount(x) < READER_COUNT_SPAN - 1);
        lemma_fundamental_div_mod_converse(y as int, 256, rcount(x) + 1, low_byte(x));
    }
}

/// A writer adding its entry bits to a word whose low byte is clear cannot
/// carry into the reader count: the low byte becomes exactly the added
/// bits and the count is unchanged.
pub proof fn lemma_writer_mark_step(x: u64, w: u64)
    requires
        low_byte(x) == 0,
        1 <= w <= 255,
    ensures
        x + w <= u64::MAX,
        low_byte(x.wrapping_add(w)) == w,
        rcount(x.wrapping_add(w)) == rcount(x),
{
    lemma_word_parts(x);
    assert(x == 256 * rcount(x));
    let y = x.wrapping_add(w);
    assert(y == x + w);
    lemma_fundamental_div_mod_converse(y as int, 256, rcount(x), w as int);
}

/// Clearing the low byte of a word leaves the reader count untouched, and
/// the executable mask form computes exactly that clearing.
pub proof fn lemma_clear_low_step(x: u64)
    ensures
        x & ZERO_MASK == clear_low(x),
        low_byte(clear_low(x)) == 0,
        rcount(clear_low(x)) == rcount(x),
{
    lemma_word_parts(x);
    assert(x & 0xffff_ffff_ffff_ff00u64 == 256 * (x / 256)) by (bit_vector);
    assert((x as int) / 256 == x / 256);
    assert(clear_low(x) == 256 * rcount(x));
    lemma_fundamental_div_mod_converse(clear_low(x) as int, 256, rcount(x), 0);
}

/// Drawing the successor of a ticket always changes it and flips its phase
/// bit, also across the wrap of the ticket counter.
pub proof fn lemma_ticket_step(t: u64)
    ensures
        t.wrapping_add(1) != t,
        wmark(t.wrapping_add(1)) != wmark(t),
{
    lemma_fundamental_div_mod(t as int, 2);
    lemma_mod_pos_bound(t as int, 2);
    let s = t.wrapping_add(1);
    if t == u64::MAX {
        assert(s == 0);
        lemma_fundamental_div_mod_converse(t as int, 2, 0x7fff_ffff_ffff_ffff, 1);
        lemma_fundamental_div_mod_converse(0, 2, 0, 0);
    } else {
        assert(s == t + 1);
        if (t as int) % 2 == 0 {
            lemma_fundamental_div_mod_converse(s as int, 2, (t as int) / 2, 1);
        } else {
            lemma_fundamental_div_mod_converse(s as int, 2, (t as int) / 2 + 1, 0);
        }
    }
}

/// A low byte below four is read back unchanged by the writer-bit mask:
/// for such words the writer bits are the low byte itself.
pub proof fn lemma_wbits_eq_low(x: u64)
    requires
        low_byte(x) < 4,
    ensures
        wbits(x) == low_byte(x),
{
    assert(x % 4 == (x % 256) % 4) by (bit_vector);
    lemma_mod_pos_bound(x as int, 256);
    lemma_fundamental_div_mod_converse(low_byte(x), 4, 0, low_byte(x));
}

/// The bitwise form `x & WBITS` used by the executable protocol extracts
/// exactly the two writer bits.
pub proof fn lemma_wbits_is_mask(x: u64)
    ensures
        x & WBITS == wbits(x),
{
    assert(x & 0x3u64 == x % 4) by (bit_vector);
}

/// Evaluates the reader's spin predicate on a freshly loaded value of `rin`,
/// for a reader that observed writer bits `w` at registration.
pub fn reader_must_wait(w: u64, rin_now: u64) -> (b: bool)
    ensures
        b == spins_for(w as int, rin_now),
{
    proof {
        lemma_wbits_is_mask(rin_now);
    }
    w != 0 && w == (rin_now & WBITS)
}

/// The bitwise form `PRES | (t & PHID)` used by the executable protocol
/// computes exactly the writer mark of ticket `t`.
pub proof fn lemma_entry_bits_are_mark(t: u64)
    ensures
        PRES | (t & PHID) == wmark(t),
{
    assert(0x2u64 | (t & 0x1u64) == 2 + t % 2) by (bit_vector);
}

/// Computes the writer bits that the writer holding ticket `ticket`
/// publishes in `rin` while it waits for readers to drain and during its
/// critical section.
pub fn writer_entry_bits(ticket: u64) -> (w: u64)
    ensures
        w == wmark(ticket),
        2 <= w <= 3,
{
    proof {
        lemma_entry_bits_are_mark(ticket);
    }
    PRES | (ticket & PHID)
}

} // verus!
