//! Laws of whole runs.
//!
//! [`run`] folds [`spec_tick`] over a sequence of tick inputs, so a
//! statement about `run` is a statement about every tick history the
//! controller can see.  The lemmas here state the run-wide guarantees:
//! admission never fires without memory headroom nor inside the
//! cooldown window, worker names strictly increase and are never
//! reused, every live worker is regulated exactly once per tick, and
//! each completed tick leaves exactly one telemetry record.

use vstd::prelude::*;
use crate::controller::{
    admits, model_wf, spec_tick, worker_seqs, workers_wf, Model, TickInput, WorkerModel,
};

verus! {

/// How many tracked workers stand in the `Running` phase.
pub open spec fn running_count(ws: Seq<WorkerModel>) -> nat {
    ws.filter(|w: WorkerModel| w.phase is Running).len()
}

/// The state after the controller has completed the given ticks, in
/// order, from `m0`.
pub open spec fn run(m0: Model, inputs: Seq<TickInput>) -> Model
    decreases inputs.len(),
{
    if inputs.len() == 0 {
        m0
    } else {
        spec_tick(run(m0, inputs.drop_last()), inputs.last())
    }
}

/// The state just before tick `k` of the history runs.
pub open spec fn state_at(m0: Model, inputs: Seq<TickInput>, k: int) -> Model {
    run(m0, inputs.take(k))
}

/// Whether admission fires on tick `k` of the history.
pub open spec fn admission_fires_at(m0: Model, inputs: Seq<TickInput>, k: int) -> bool {
    admits(state_at(m0, inputs, k), inputs[k].free_memory as int)
}

/// Unrolls one tick off a prefix of the history.
proof fn lemma_run_take_step(m0: Model, inputs: Seq<TickInput>, k: int)
    requires
        0 <= k < inputs.len(),
    ensures
        state_at(m0, inputs, k + 1) == spec_tick(state_at(m0, inputs, k), inputs[k]),
{
    let t = inputs.take(k + 1);
    assert(t.drop_last() =~= inputs.take(k));
    assert(t.last() == inputs[k]);
}

/// A run never touches the configuration or the run state.
proof fn lemma_run_keeps_cfg_and_phase(m0: Model, inputs: Seq<TickInput>)
    ensures
        run(m0, inputs).cfg == m0.cfg,
        run(m0, inputs).phase == m0.phase,
    decreases inputs.len(),
{
    if inputs.len() > 0 {
        lemma_run_keeps_cfg_and_phase(m0, inputs.drop_last());
    }
}

/// At most one admission fires per tick: one tick grows the live set
/// and the naming counter by at most one each.
pub proof fn lemma_at_most_one_admission_per_tick(m: Model, inp: TickInput)
    ensures
        spec_tick(m, inp).workers.len() <= m.workers.len() + 1,
        spec_tick(m, inp).next_seq <= m.next_seq + 1,
{
}

/// Admission never fires without memory headroom: with free memory at
/// or below the floor the tick admits nothing, whatever the rest of the
/// state says.
pub proof fn lemma_no_admission_without_headroom(m: Model, inp: TickInput)
    requires
        inp.free_memory <= m.cfg.admission_floor(),
    ensures
        !admits(m, inp.free_memory as int),
        spec_tick(m, inp).workers == m.workers,
        spec_tick(m, inp).next_seq == m.next_seq,
{
}

/// Over any tick history whose free memory never exceeds the floor,
/// not one worker is admitted and not one name is spent.
pub proof fn lemma_low_memory_admits_none(m0: Model, inputs: Seq<TickInput>)
    requires
        forall|k: int|
            0 <= k < inputs.len() ==> (#[trigger] inputs[k]).free_memory
                <= m0.cfg.admission_floor(),
    ensures
        run(m0, inputs).workers == m0.workers,
        run(m0, inputs).next_seq == m0.next_seq,
    decreases inputs.len(),
{
    if inputs.len() > 0 {
        let head = inputs.drop_last();
        assert(forall|k: int|
            0 <= k < head.len() ==> (#[trigger] head[k]).free_memory
                <= m0.cfg.admission_floor());
        lemma_low_memory_admits_none(m0, head);
        lemma_run_keeps_cfg_and_phase(m0, head);
        lemma_no_admission_without_headroom(run(m0, head), inputs.last());
    }
}

/// After an admission on tick `i`, the cooldown counter at any later
/// point `k` of the history counts at most the ticks since `i`.
proof fn lemma_cooldown_counter_bound(m0: Model, inputs: Seq<TickInput>, i: int, k: int)
    requires
        0 <= i < k <= inputs.len(),
        admission_fires_at(m0, inputs, i),
    ensures
        state_at(m0, inputs, k).ticks_since_admission <= k - i - 1,
    decreases k,
{
    lemma_run_take_step(m0, inputs, k - 1);
    if k > i + 1 {
        lemma_cooldown_counter_bound(m0, inputs, i, k - 1);
    }
}

/// Admission never fires twice within the cooldown window: two
/// admissions of one history lie strictly more than `cooldown_ticks`
/// ticks apart.
pub proof fn lemma_no_admission_within_cooldown(m0: Model, inputs: Seq<TickInput>, i: int, j: int)
    requires
        0 <= i < j < inputs.len(),
        admission_fires_at(m0, inputs, i),
        admission_fires_at(m0, inputs, j),
    ensures
        j - i > m0.cfg.cooldown_ticks,
{
    lemma_cooldown_counter_bound(m0, inputs, i, j);
    lemma_run_keeps_cfg_and_phase(m0, inputs.take(j));
}

/// One tick keeps the naming discipline: a worker admitted now takes
/// the counter's value, above every name already handed out.
pub proof fn lemma_tick_preserves_workers_wf(m: Model, inp: TickInput)
    requires
        workers_wf(m),
    ensures
        workers_wf(spec_tick(m, inp)),
        spec_tick(m, inp).next_seq >= m.next_seq,
{
    let m1 = spec_tick(m, inp);
    assert forall|i: int, j: int| 0 <= i < j < m1.workers.len() implies m1.workers[i].seq
        < m1.workers[j].seq by {
        if j < m.workers.len() {
            assert(m.workers[i].seq < m.workers[j].seq);
        } else {
            assert(m1.workers[j].seq == m.next_seq);
            assert(m.workers[i].seq < m.next_seq);
        }
    }
}

/// Worker names strictly increase and are never reused over any tick
/// history: whether or not any provisioning attempt failed along the
/// way, the live set's names stay strictly increasing in creation
/// order and below the naming counter, which never moves backwards.
pub proof fn lemma_worker_names_never_reused(m0: Model, inputs: Seq<TickInput>)
    requires
        workers_wf(m0),
    ensures
        workers_wf(run(m0, inputs)),
        run(m0, inputs).next_seq >= m0.next_seq,
    decreases inputs.len(),
{
    if inputs.len() > 0 {
        lemma_worker_names_never_reused(m0, inputs.drop_last());
        lemma_tick_preserves_workers_wf(run(m0, inputs.drop_last()), inputs.last());
    }
}

/// A failed provisioning attempt skips its name: the counter advances,
/// the live set does not.
pub proof fn lemma_failed_provision_skips_name(m: Model, inp: TickInput)
    requires
        admits(m, inp.free_memory as int),
        !inp.provision_ok,
    ensures
        spec_tick(m, inp).workers == m.workers,
        spec_tick(m, inp).next_seq == m.next_seq + 1,
{
}

/// The regulation pass of a tick names each live worker exactly once:
/// the list of live names ([`worker_seqs`], which
/// [`crate::controller::Controller::run_tick`] hands out tick by tick)
/// covers the live set in creation order and holds no name twice.
pub proof fn lemma_regulation_exactly_once(m: Model)
    requires
        workers_wf(m),
    ensures
        worker_seqs(m.workers).no_duplicates(),
        worker_seqs(m.workers).len() == m.workers.len(),
        forall|i: int|
            0 <= i < m.workers.len() ==> worker_seqs(m.workers)[i] == m.workers[i].seq,
{
    let s = worker_seqs(m.workers);
    assert forall|i: int, j: int|
        0 <= i < s.len() && 0 <= j < s.len() && i != j implies s[i] != s[j] by {
        if i < j {
            assert(m.workers[i].seq < m.workers[j].seq);
        } else {
            assert(m.workers[j].seq < m.workers[i].seq);
        }
    }
}

/// Every completed tick leaves exactly one telemetry record: after `n`
/// ticks, exactly `n` records have joined the stream, whatever each
/// tick decided.
pub proof fn lemma_one_record_per_tick(m0: Model, inputs: Seq<TickInput>)
    ensures
        run(m0, inputs).records.len() == m0.records.len() + inputs.len(),
        run(m0, inputs).records_written == m0.records_written + inputs.len(),
        run(m0, inputs).ticks_completed == m0.ticks_completed + inputs.len(),
    decreases inputs.len(),
{
    if inputs.len() > 0 {
        lemma_one_record_per_tick(m0, inputs.drop_last());
    }
}

/// A filter that rejects nothing keeps the whole sequence.
proof fn lemma_filter_of_all<A>(s: Seq<A>, pred: spec_fn(A) -> bool)
    requires
        forall|i: int| 0 <= i < s.len() ==> pred(#[trigger] s[i]),
    ensures
        s.filter(pred) == s,
    decreases s.len(),
{
    reveal(Seq::filter);
    if s.len() > 0 {
        lemma_filter_of_all(s.drop_last(), pred);
        assert(s.drop_last().push(s.last()) =~= s);
    }
}

/// Shutdown destroys one worker per worker that was `Running` when it
/// began: at that moment every tracked worker is live, so the teardown
/// list — one destroy per tracked worker, by
/// [`crate::controller::Controller::shutdown`]'s contract — is exactly
/// one destroy per `Running` worker.
pub proof fn lemma_one_destroy_per_running_worker(m: Model)
    requires
        model_wf(m),
        m.phase is ShuttingDown,
    ensures
        running_count(m.workers) == m.workers.len(),
{
    lemma_filter_of_all(m.workers, |w: WorkerModel| w.phase is Running);
}

/// One tick keeps the whole invariant, provided the clock did not run
/// backwards and the controller has not terminated.
pub proof fn lemma_tick_preserves_wf(m: Model, inp: TickInput)
    requires
        model_wf(m),
        !(m.phase is Terminated),
        inp.timestamp >= m.last_timestamp,
    ensures
        model_wf(spec_tick(m, inp)),
{
    lemma_tick_preserves_workers_wf(m, inp);
    let m1 = spec_tick(m, inp);
    assert(forall|k: int| 0 <= k < m.records.len() ==> #[trigger] m1.records[k] == m.records[k]);
}

/// A whole run keeps the invariant, provided its clock readings never
/// decrease: however many ticks complete, one record stands per tick
/// and the record timestamps never decrease.
pub proof fn lemma_run_preserves_wf(m0: Model, inputs: Seq<TickInput>)
    requires
        model_wf(m0),
        m0.phase is Running,
        inputs.len() > 0 ==> inputs[0].timestamp >= m0.last_timestamp,
        forall|k1: int, k2: int|
            0 <= k1 < k2 < inputs.len() ==> inputs[k1].timestamp <= inputs[k2].timestamp,
    ensures
        model_wf(run(m0, inputs)),
        run(m0, inputs).last_timestamp == if inputs.len() > 0 {
            inputs.last().timestamp as int
        } else {
            m0.last_timestamp
        },
    decreases inputs.len(),
{
    if inputs.len() > 0 {
        let head = inputs.drop_last();
        lemma_run_preserves_wf(m0, head);
        lemma_run_keeps_cfg_and_phase(m0, head);
        lemma_tick_preserves_wf(run(m0, head), inputs.last());
    }
}

} // verus!
