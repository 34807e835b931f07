//! The shared generation counter and the staleness rules built on it.
//!
//! Every accepted search request is assigned a generation by bumping one
//! shared counter. A worker holding generation `g` is stale as soon as the
//! counter has moved past `g`: some newer request has been accepted, so the
//! older run should stop doing further expensive work. The counter is a
//! cooperative-cancellation signal only; result data is never shared between
//! runs.

use core::sync::atomic::AtomicU64;
use core::sync::atomic::Ordering;
use vstd::prelude::*;

verus! {

/// A run with generation `my_seq` is stale once the shared counter has been
/// observed past it.
pub open spec fn stale_at(current: u64, my_seq: u64) -> bool {
    current > my_seq
}

/// The staleness test a worker applies to each counter observation.
pub fn is_stale(current: u64, my_seq: u64) -> (r: bool)
    ensures
        r == stale_at(current, my_seq),
{
    current > my_seq
}

/// A monotonically non-decreasing counter shared by the dispatcher and every
/// in-flight worker. Reads and bumps are single atomic operations, so
/// unsynchronized concurrent callers are safe; nothing is assumed here about
/// the value a read returns, because any thread may bump the counter at any
/// moment.
pub struct GenerationCounter {
    cell: AtomicU64,
}

impl GenerationCounter {
    /// A fresh counter; generations handed out from it start at 1.
    pub fn new() -> GenerationCounter {
        GenerationCounter { cell: AtomicU64::new(0) }
    }

    /// Atomically increments the counter and returns the new value: the
    /// generation assigned to the run that caused the bump. Saturating
    /// on the return keeps the result a `u64` even in the (unreachable in
    /// practice) case that the counter has exhausted its range.
    pub fn next(&self) -> u64 {
        let prev = self.cell.fetch_add(1, Ordering::SeqCst);
        if prev < u64::MAX {
            prev + 1
        } else {
            u64::MAX
        }
    }

    /// Atomically reads the counter: what a worker compares its own
    /// generation against.
    pub fn current(&self) -> u64 {
        self.cell.load(Ordering::SeqCst)
    }
}

/// The consumer-side gate. Each delivery carries its run's generation, and
/// the consumer keeps a delivery only when that generation is at or beyond
/// the highest one it has accepted so far: a slow, superseded run's delivery
/// arriving behind a fresher one is recognizably stale and gets discarded.
pub struct SinkGate {
    /// The highest generation accepted so far, or 0 when nothing has been.
    pub last_accepted: u64,
}

impl SinkGate {
    /// A gate that has accepted nothing yet; generation assignment starts at
    /// 1, so the first delivery always passes.
    pub fn new() -> (r: SinkGate)
        ensures
            r.last_accepted == 0,
    {
        SinkGate { last_accepted: 0 }
    }

    /// Decides whether a delivery tagged `generation` is current. Accepts
    /// exactly the batches at or beyond the newest accepted generation and
    /// remembers the new high-water mark; a rejected batch changes nothing.
    pub fn accept(&mut self, generation: u64) -> (r: bool)
        ensures
            r == (generation >= old(self).last_accepted),
            r ==> final(self).last_accepted == generation,
            !r ==> final(self).last_accepted == old(self).last_accepted,
    {
        if generation >= self.last_accepted {
            self.last_accepted = generation;
            true
        } else {
            false
        }
    }
}

} // verus!
