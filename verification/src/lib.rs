//! A phase-fair reader-writer lock, verified at the level of its counter
//! protocol.
//!
//! The lock follows the phase-fair design of Brandenburg and Anderson: four
//! monotonically increasing machine-word counters (`rin`, `rout`, `win`,
//! `wout`) carry the whole synchronization state, manipulated only with
//! fetch-and-add and fetch-and-and.  Readers register by adding a stride to
//! `rin` and deregister by adding the same stride to `rout`; writers draw
//! FIFO tickets from `win` and are admitted when `wout` catches up, then
//! announce themselves in the two low-order "writer bits" of `rin`.
//!
//! This crate verifies the protocol as a state machine over owned counters:
//! [`raw::RawPFLock`] holds the four counters as plain words and each
//! operation's contract states the exact counter transition, the conditions
//! under which access is granted, and the invariants that give mutual
//! exclusion, writer FIFO order and the phase-fair reader bound.  The
//! [`protocol`] module holds the counter encoding itself together with the
//! spin-decision predicates that a busy-waiting implementation evaluates on
//! each poll of the shared words; [`guarded::GuardedLock`] rules access to a
//! payload by those counters; and [`laws`] states and proves the lock's
//! guarantees — mutual exclusion, reader concurrency, writer FIFO, the
//! phase-fair bound and the round trips — over every well-formed state,
//! wrapped counters included.

pub mod guarded;
pub mod laws;
pub mod protocol;
pub mod raw;

pub use guarded::GuardedLock;
pub use raw::RawPFLock;
