//! The control loop's state machine.
//!
//! One tick runs admission first, then the regulation pass over every
//! live worker (a freshly admitted one included), then emits exactly
//! one telemetry record.  An operator interrupt is observed only at a
//! tick boundary; shutdown then destroys every live worker in creation
//! order and the controller terminates.
//!
//! The caller drives the loop: it reads free memory, provisions the
//! worker an admission names, performs the regulation calls and the
//! durable write, and reports back through [`TickInput`].  Every
//! decision — whether admission fires, which name it uses, who is regulated,
//! what the record counts — is made and proved here.
//!
//! Naming policy: the sequence counter advances on every admission,
//! whether or not provisioning succeeded, so a failed attempt skips a
//! name and no name is ever reused.

use vstd::prelude::*;
use crate::Config;
use crate::admission::should_admit;
use crate::power::PowerSnapshot;
use crate::telemetry::TelemetryRecord;
use crate::worker::{Worker, WorkerPhase};

verus! {

/// The controller's run state: strictly forward, one way.
#[derive(Clone, Copy, PartialEq, Eq, Structural, Debug)]
pub enum Phase {
    /// Ticks are being processed.
    Running,
    /// An interrupt was observed at a tick boundary; teardown is owed.
    ShuttingDown,
    /// Every worker is torn down; only the final summary remains.
    Terminated,
}

/// What the world reported for one completed tick: the host's free
/// memory at the top of the tick, whether the provisioning that this
/// tick's admission demanded succeeded (ignored when nothing was
/// admitted), and the tick's clock reading in seconds since start.
#[derive(Clone, Copy, PartialEq, Eq, Structural, Debug)]
pub struct TickInput {
    /// Free host memory in bytes at the top of the tick.
    pub free_memory: u64,
    /// Whether provisioning of an admitted worker succeeded.
    pub provision_ok: bool,
    /// Seconds since the controller started.
    pub timestamp: u64,
}

/// What the caller owes the world for one tick: provision the named
/// worker if admission fired, and regulate exactly the listed workers.
#[derive(Clone, PartialEq, Debug)]
pub struct TickPlan {
    /// The sequence number of the worker admission named, if it fired.
    pub admitted: Option<u64>,
    /// Every live worker of this tick, in creation order, each owed
    /// exactly one regulation call.
    pub regulate: Vec<u64>,
}

/// The controller's mathematical state: what the contracts and the
/// run lemmas speak of.
#[verifier::ext_equal]
pub struct Model {
    /// The fixed configuration.
    pub cfg: Config,
    /// The run state.
    pub phase: Phase,
    /// Every worker ever admitted successfully, in creation order.
    pub workers: Seq<WorkerModel>,
    /// The next sequence number to hand out.
    pub next_seq: int,
    /// Completed ticks since the last admission fired.
    pub ticks_since_admission: int,
    /// Completed ticks so far.
    pub ticks_completed: int,
    /// Telemetry records emitted so far.
    pub records_written: int,
    /// The clock reading of the latest completed tick.
    pub last_timestamp: int,
    /// The timestamps of the emitted records, in emission order.
    pub records: Seq<int>,
}

/// One worker as the model sees it.
#[verifier::ext_equal]
pub struct WorkerModel {
    /// The worker's sequence number.
    pub seq: int,
    /// Where the worker stands in its lifecycle.
    pub phase: WorkerPhase,
}

/// The sequence numbers of the tracked workers, in creation order.
pub open spec fn worker_seqs(ws: Seq<WorkerModel>) -> Seq<int> {
    ws.map_values(|w: WorkerModel| w.seq)
}

/// Whether admission fires: free memory strictly above the headroom
/// floor and the cooldown elapsed, both at once.
pub open spec fn admits(m: Model, free_memory: int) -> bool {
    free_memory > m.cfg.admission_floor() && m.ticks_since_admission >= m.cfg.cooldown_ticks
}

/// The naming discipline alone: worker sequence numbers strictly
/// increase in creation order and stay below the counter, so a name,
/// once handed out, is never handed out again.
pub open spec fn workers_wf(m: Model) -> bool {
    &&& forall|i: int, j: int|
        0 <= i < j < m.workers.len() ==> m.workers[i].seq < m.workers[j].seq
    &&& forall|i: int| 0 <= i < m.workers.len() ==> 0 <= #[trigger] m.workers[i].seq < m.next_seq
    &&& m.next_seq >= 0
}

/// The model's invariant: the naming discipline holds; every tracked
/// worker is live until shutdown and destroyed after it; exactly one
/// record exists per completed tick, and record timestamps never
/// decrease.
pub open spec fn model_wf(m: Model) -> bool {
    &&& m.cfg.wf()
    &&& workers_wf(m)
    &&& !(m.phase is Terminated) ==> forall|i: int|
        0 <= i < m.workers.len() ==> (#[trigger] m.workers[i].phase) is Running
    &&& m.phase is Terminated ==> forall|i: int|
        0 <= i < m.workers.len() ==> (#[trigger] m.workers[i].phase) is Destroyed
    &&& m.ticks_since_admission >= 0
    &&& m.ticks_completed >= 0
    &&& m.records_written == m.ticks_completed
    &&& m.records.len() == m.records_written
    &&& forall|k: int| 0 <= k < m.records.len() ==> #[trigger] m.records[k] <= m.last_timestamp
    &&& forall|k1: int, k2: int|
        0 <= k1 < k2 < m.records.len() ==> m.records[k1] <= m.records[k2]
}

/// The state a fresh controller starts in.
pub open spec fn init_model(cfg: Config) -> Model {
    Model {
        cfg,
        phase: Phase::Running,
        workers: Seq::empty(),
        next_seq: 0,
        ticks_since_admission: 0,
        ticks_completed: 0,
        records_written: 0,
        last_timestamp: 0,
        records: Seq::empty(),
    }
}

/// One completed tick.  If admission fires, the sequence counter
/// advances and the cooldown restarts whether or not provisioning
/// succeeded; the worker joins the live set only on success.  Exactly
/// one record is emitted either way.
pub open spec fn spec_tick(m: Model, inp: TickInput) -> Model {
    let fired = admits(m, inp.free_memory as int);
    Model {
        cfg: m.cfg,
        phase: m.phase,
        workers: if fired && inp.provision_ok {
            m.workers.push(WorkerModel { seq: m.next_seq, phase: WorkerPhase::Running })
        } else {
            m.workers
        },
        next_seq: if fired {
            m.next_seq + 1
        } else {
            m.next_seq
        },
        ticks_since_admission: if fired {
            0
        } else {
            m.ticks_since_admission + 1
        },
        ticks_completed: m.ticks_completed + 1,
        records_written: m.records_written + 1,
        last_timestamp: inp.timestamp as int,
        records: m.records.push(inp.timestamp as int),
    }
}

/// The control loop's state: the live-worker set, the naming counter,
/// the cooldown clock and the telemetry tally, all owned here and
/// mutated only through the tick, interrupt and shutdown steps.
pub struct Controller {
    /// The fixed configuration.
    pub config: Config,
    /// The run state.
    pub phase: Phase,
    /// Every live worker, in creation order.
    pub workers: Vec<Worker>,
    /// The next sequence number to hand out.
    pub next_seq: u64,
    /// Completed ticks since the last admission fired.
    pub ticks_since_admission: u64,
    /// Completed ticks so far.
    pub ticks_completed: u64,
    /// Telemetry records emitted so far.
    pub records_written: u64,
    /// The clock reading of the latest completed tick.
    pub last_timestamp: u64,
    /// The timestamps of the emitted records, in emission order.
    pub record_log: Ghost<Seq<int>>,
}

impl View for Controller {
    type V = Model;

    open spec fn view(&self) -> Model {
        Model {
            cfg: self.config,
            phase: self.phase,
            workers: self.workers@.map_values(
                |w: Worker| WorkerModel { seq: w.seq as int, phase: w.phase },
            ),
            next_seq: self.next_seq as int,
            ticks_since_admission: self.ticks_since_admission as int,
            ticks_completed: self.ticks_completed as int,
            records_written: self.records_written as int,
            last_timestamp: self.last_timestamp as int,
            records: self.record_log@,
        }
    }
}

impl Controller {
    /// A fresh controller: running, no workers, the naming counter and
    /// every tally at zero.
    pub fn new(config: Config) -> (c: Controller)
        requires
            config.wf(),
        ensures
            c@ == init_model(config),
            model_wf(c@),
    {
        let c = Controller {
            config,
            phase: Phase::Running,
            workers: Vec::new(),
            next_seq: 0,
            ticks_since_admission: 0,
            ticks_completed: 0,
            records_written: 0,
            last_timestamp: 0,
            record_log: Ghost(Seq::empty()),
        };
        proof {
            assert(c@ =~= init_model(config));
        }
        c
    }

    /// Whether this tick admits a new worker, and under which name.
    /// Read-only: the caller provisions the named worker, then commits
    /// the tick through [`Controller::run_tick`].
    pub fn admission_decision(&self, free_memory: u64) -> (r: Option<u64>)
        requires
            model_wf(self@),
        ensures
            r is Some <==> admits(self@, free_memory as int),
            r matches Some(name) ==> name == self.next_seq,
    {
        if should_admit(&self.config, free_memory, self.ticks_since_admission) {
            Some(self.next_seq)
        } else {
            None
        }
    }

    /// Commits one completed tick: runs admission, adds the new worker
    /// to the live set when provisioning succeeded, restarts or advances
    /// the cooldown clock, tallies the tick's record, and names every
    /// live worker owed a regulation call — each exactly once, the
    /// freshly admitted one included.
    pub fn run_tick(&mut self, inp: TickInput) -> (plan: TickPlan)
        requires
            model_wf(old(self)@),
            old(self).phase is Running,
            inp.timestamp >= old(self).last_timestamp,
            old(self).next_seq < u64::MAX,
            old(self).ticks_since_admission < u64::MAX,
            old(self).ticks_completed < u64::MAX,
        ensures
            final(self)@ == spec_tick(old(self)@, inp),
            model_wf(final(self)@),
            plan.admitted is Some <==> admits(old(self)@, inp.free_memory as int),
            plan.admitted matches Some(name) ==> name == old(self).next_seq,
            plan.regulate@.map_values(|s: u64| s as int) == worker_seqs(final(self)@.workers),
            plan.regulate@.len() == final(self)@.workers.len(),
            forall|i: int|
                0 <= i < plan.regulate@.len() ==> #[trigger] plan.regulate@[i]
                    == final(self)@.workers[i].seq,
    {
        let ghost m0 = self@;
        let fired = should_admit(&self.config, inp.free_memory, self.ticks_since_admission);
        let admitted: Option<u64> = if fired {
            let name = self.next_seq;
            if inp.provision_ok {
                self.workers.push(Worker { seq: name, phase: WorkerPhase::Running });
            }
            self.next_seq = self.next_seq + 1;
            self.ticks_since_admission = 0;
            Some(name)
        } else {
            self.ticks_since_admission = self.ticks_since_admission + 1;
            None
        };
        self.ticks_completed = self.ticks_completed + 1;
        self.records_written = self.records_written + 1;
        self.last_timestamp = inp.timestamp;
        proof {
            self.record_log@ = self.record_log@.push(inp.timestamp as int);
        }
        let regulate = self.live_worker_seqs();
        proof {
            assert(self@.workers =~= spec_tick(m0, inp).workers);
            assert(self@ =~= spec_tick(m0, inp));
        }
        TickPlan { admitted, regulate }
    }

    /// The live workers' sequence numbers, in creation order.
    pub fn live_worker_seqs(&self) -> (r: Vec<u64>)
        ensures
            r@.map_values(|s: u64| s as int) == worker_seqs(self@.workers),
            r@.len() == self@.workers.len(),
            forall|i: int|
                0 <= i < r@.len() ==> #[trigger] r@[i] == self@.workers[i].seq,
    {
        let mut r: Vec<u64> = Vec::new();
        let mut i: usize = 0;
        while i < self.workers.len()
            invariant
                0 <= i <= self.workers@.len(),
                r@.len() == i,
                forall|j: int| 0 <= j < i ==> r@[j] == self.workers@[j].seq,
            decreases self.workers@.len() - i,
        {
            r.push(self.workers[i].seq);
            i = i + 1;
        }
        proof {
            assert(r@.map_values(|s: u64| s as int) =~= worker_seqs(self@.workers));
        }
        r
    }

    /// Observes the operator interrupt at a tick boundary: the next
    /// step is teardown, and no tick runs in between.
    pub fn observe_interrupt(&mut self)
        requires
            old(self).phase is Running,
        ensures
            final(self)@ == (Model { phase: Phase::ShuttingDown, ..old(self)@ }),
            model_wf(old(self)@) ==> model_wf(final(self)@),
    {
        self.phase = Phase::ShuttingDown;
    }

    /// Tears the run down: every live worker leaves through
    /// `Destroying` to `Destroyed`, oldest first, and the returned list
    /// names one destroy-and-undefine call per worker that was live
    /// when shutdown began — no more, no fewer, in creation order.
    pub fn shutdown(&mut self) -> (destroyed: Vec<u64>)
        requires
            model_wf(old(self)@),
            old(self).phase is ShuttingDown,
        ensures
            final(self).phase is Terminated,
            model_wf(final(self)@),
            destroyed@.map_values(|s: u64| s as int) == worker_seqs(old(self)@.workers),
            destroyed@.len() == old(self)@.workers.len(),
            final(self)@.workers.len() == old(self)@.workers.len(),
            forall|i: int|
                0 <= i < old(self)@.workers.len() ==> #[trigger] final(self)@.workers[i].seq
                    == old(self)@.workers[i].seq,
            final(self)@.next_seq == old(self)@.next_seq,
            final(self)@.ticks_completed == old(self)@.ticks_completed,
            final(self)@.records == old(self)@.records,
            final(self)@.records_written == old(self)@.records_written,
    {
        let mut destroyed: Vec<u64> = Vec::new();
        let mut torn: Vec<Worker> = Vec::new();
        let mut i: usize = 0;
        while i < self.workers.len()
            invariant
                model_wf(self@),
                self.phase is ShuttingDown,
                0 <= i <= self.workers@.len(),
                destroyed@.len() == i,
                torn@.len() == i,
                forall|j: int| 0 <= j < i ==> destroyed@[j] == self.workers@[j].seq,
                forall|j: int| 0 <= j < i ==> (#[trigger] torn@[j]).seq == self.workers@[j].seq,
                forall|j: int| 0 <= j < i ==> (#[trigger] torn@[j]).phase is Destroyed,
            decreases self.workers@.len() - i,
        {
            let mut w = self.workers[i];
            assert(self@.workers[i as int].phase is Running);
            w.advance();
            w.advance();
            assert(w.phase is Destroyed) by {
                match w.phase {
                    WorkerPhase::Destroyed => {},
                    _ => {
                        assert(false);
                    },
                }
            }
            destroyed.push(w.seq);
            torn.push(w);
            i = i + 1;
        }
        self.workers = torn;
        self.phase = Phase::Terminated;
        proof {
            assert(destroyed@.map_values(|s: u64| s as int) =~= worker_seqs(
                old(self)@.workers,
            ));
            assert forall|k: int| 0 <= k < self@.workers.len() implies (#[trigger] self@.workers[k]).seq
                == old(self)@.workers[k].seq && self@.workers[k].phase is Destroyed by {
                assert(self@.workers[k].seq == torn@[k].seq as int);
                assert(old(self)@.workers[k].seq == old(self).workers@[k].seq as int);
            }
            assert(model_wf(self@));
        }
        destroyed
    }

    /// Builds this tick's telemetry record: the tick's clock reading,
    /// the host readings the caller measured, and the live worker
    /// count, with the power metrics carried through unchanged.
    pub fn make_record(&self, cpu_raw: u64, used_memory_mb: u64, power: PowerSnapshot) -> (r:
        TelemetryRecord)
        ensures
            r.timestamp == self.last_timestamp,
            r.cpu_raw == cpu_raw,
            r.used_memory_mb == used_memory_mb,
            r.worker_count == self@.workers.len(),
            r.power == power,
    {
        TelemetryRecord {
            timestamp: self.last_timestamp,
            cpu_raw,
            used_memory_mb,
            worker_count: self.workers.len() as u64,
            power,
        }
    }
}

} // verus!
