//! One managed worker and its lifecycle.
//!
//! A worker's identity is its sequence number, embedded in its name by
//! the caller; numbers are handed out in strictly increasing order and
//! never reused within a run.  The lifecycle moves strictly forward:
//! no worker is reused or resurrected.

use vstd::prelude::*;

verus! {

/// The stations of a worker's life, in order.  `RegulatedTick` repeats
/// while the worker is `Running` and does not change the phase.
#[derive(Clone, Copy, PartialEq, Eq, Structural, Debug)]
pub enum WorkerPhase {
    /// Admission fired; nothing is materialized yet.
    Requested,
    /// Definition document and disk image exist.
    Materialized,
    /// The hypervisor holds the worker's definition.
    Defined,
    /// The worker runs and is regulated once per tick.
    Running,
    /// Teardown has begun.
    Destroying,
    /// The worker is gone; its name is never reused.
    Destroyed,
}

/// Position of a phase on the forward-only lifecycle path.
pub open spec fn phase_rank(p: WorkerPhase) -> int {
    match p {
        WorkerPhase::Requested => 0,
        WorkerPhase::Materialized => 1,
        WorkerPhase::Defined => 2,
        WorkerPhase::Running => 3,
        WorkerPhase::Destroying => 4,
        WorkerPhase::Destroyed => 5,
    }
}

/// One managed worker: its sequence number and where it stands in its
/// lifecycle.
#[derive(Clone, Copy, PartialEq, Eq, Structural, Debug)]
pub struct Worker {
    /// The monotonic sequence number embedded in the worker's name.
    pub seq: u64,
    /// Where the worker stands on the lifecycle path.
    pub phase: WorkerPhase,
}

impl Worker {
    /// A freshly requested worker under the given sequence number.
    pub fn request(seq: u64) -> (w: Worker)
        ensures
            w.seq == seq,
            w.phase == WorkerPhase::Requested,
    {
        Worker { seq, phase: WorkerPhase::Requested }
    }

    /// Moves the worker one station forward on the lifecycle path.
    /// Transitions are strictly forward: the rank always grows by one
    /// and a destroyed worker has no successor.
    pub fn advance(&mut self)
        requires
            old(self).phase != WorkerPhase::Destroyed,
        ensures
            final(self).seq == old(self).seq,
            phase_rank(final(self).phase) == phase_rank(old(self).phase) + 1,
    {
        self.phase = match self.phase {
            WorkerPhase::Requested => WorkerPhase::Materialized,
            WorkerPhase::Materialized => WorkerPhase::Defined,
            WorkerPhase::Defined => WorkerPhase::Running,
            WorkerPhase::Running => WorkerPhase::Destroying,
            WorkerPhase::Destroying => WorkerPhase::Destroyed,
            WorkerPhase::Destroyed => WorkerPhase::Destroyed,
        };
    }
}

} // verus!
