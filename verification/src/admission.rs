//! The admission decision.
//!
//! A new worker is admitted exactly when free host memory strictly
//! exceeds one worker's initial claim plus the safety margin — so the
//! host itself is never pushed into swapping — and at least
//! `cooldown_ticks` completed ticks have passed since the last
//! admission, so the previous worker's true demand shows in the free
//! figure first.  Denial has no error case: the controller just lets
//! the cooldown clock run.

use vstd::prelude::*;
use crate::Config;

verus! {

/// Whether conditions permit spawning a new worker now: memory headroom
/// and an elapsed cooldown, both at once, and nothing else.
pub fn should_admit(config: &Config, free_memory: u64, ticks_since_last_admission: u64) -> (r:
    bool)
    requires
        config.wf(),
    ensures
        r <==> (free_memory > config.admission_floor() && ticks_since_last_admission
            >= config.cooldown_ticks),
{
    free_memory > config.initial_worker_memory + config.safety_margin
        && ticks_since_last_admission >= config.cooldown_ticks
}

} // verus!
