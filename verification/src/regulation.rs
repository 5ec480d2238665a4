//! The per-worker regulation decision.
//!
//! Once per tick, for every live worker, the controller computes the
//! worker's pressure signal from its memory snapshot and hands
//! `(used_estimate, threshold)` — in that argument order — to the
//! external reclaim mechanism bound to that worker.  The mechanism's
//! policy is opaque; this module's whole duty is to compute the signal
//! correctly and to gather the outcomes of one pass.  One worker's
//! failure never aborts the pass over the others.

use vstd::prelude::*;
use crate::Config;
use crate::memory::MemorySnapshot;

verus! {

/// The exact arguments of one call into the reclaim mechanism, in the
/// mechanism's argument order: the measured use first, the threshold
/// second.
#[derive(Clone, Copy, PartialEq, Eq, Structural, Debug)]
pub struct RegulationCall {
    /// The pressure signal computed from the worker's snapshot.
    pub used_estimate: u64,
    /// The configured regulation threshold, in bytes.
    pub threshold: u64,
}

/// Builds the call the reclaim mechanism is owed for one worker this
/// tick: the pressure signal from the worker's snapshot and the fixed
/// threshold, nothing else.
pub fn plan_regulation(snapshot: &MemorySnapshot, config: &Config) -> (c: RegulationCall)
    ensures
        c.used_estimate == snapshot.spec_used_estimate(),
        c.threshold == config.regulation_threshold,
{
    RegulationCall { used_estimate: snapshot.used_estimate(), threshold: config.regulation_threshold }
}

/// The workers of one pass whose regulation failed, in pass order:
/// exactly the pairs reported `false`, each keeping its sequence number.
pub open spec fn spec_failed(outcomes: Seq<(u64, bool)>) -> Seq<u64>
    decreases outcomes.len(),
{
    if outcomes.len() == 0 {
        Seq::empty()
    } else if outcomes.last().1 {
        spec_failed(outcomes.drop_last())
    } else {
        spec_failed(outcomes.drop_last()).push(outcomes.last().0)
    }
}

proof fn lemma_spec_failed_step(outcomes: Seq<(u64, bool)>, i: int)
    requires
        0 <= i < outcomes.len(),
    ensures
        spec_failed(outcomes.take(i + 1)) == if outcomes[i].1 {
            spec_failed(outcomes.take(i))
        } else {
            spec_failed(outcomes.take(i)).push(outcomes[i].0)
        },
{
    assert(outcomes.take(i + 1).last() == outcomes[i]);
    assert(outcomes.take(i + 1).drop_last() =~= outcomes.take(i));
}

/// Gathers one pass's error report: from `(worker, succeeded)` pairs,
/// the workers whose regulation the mechanism reported failed, in pass
/// order.  A failure is reported, never swallowed, and never stops the
/// pass.
pub fn failed_workers(outcomes: &Vec<(u64, bool)>) -> (r: Vec<u64>)
    ensures
        r@ == spec_failed(outcomes@),
{
    let mut r: Vec<u64> = Vec::new();
    let mut i: usize = 0;
    while i < outcomes.len()
        invariant
            0 <= i <= outcomes@.len(),
            r@ == spec_failed(outcomes@.take(i as int)),
        decreases outcomes@.len() - i,
    {
        let (seq_no, ok) = outcomes[i];
        proof {
            lemma_spec_failed_step(outcomes@, i as int);
        }
        if !ok {
            r.push(seq_no);
        }
        i = i + 1;
    }
    proof {
        assert(outcomes@.take(outcomes@.len() as int) =~= outcomes@);
    }
    r
}

} // verus!
