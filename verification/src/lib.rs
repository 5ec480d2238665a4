//! Single-node capacity controller core.
//!
//! The library holds the verified decision logic of a controller that
//! admits virtual-machine workers while spare host memory allows it,
//! regulates each live worker's memory footprint against a threshold,
//! and emits one telemetry record per tick.  All I/O (hypervisor calls,
//! the reclaim mechanism, the power meter, files, signals) lives outside
//! the library; the library computes every decision from plain values.

use vstd::prelude::*;

pub mod admission;
pub mod controller;
pub mod errors;
pub mod memory;
pub mod netif;
pub mod power;
pub mod regulation;
pub mod template;
pub mod telemetry;
pub mod trace;
pub mod worker;

verus! {

/// Fixed configuration of the controller: all amounts in bytes, the
/// cooldown in ticks.
#[derive(Clone, Copy, PartialEq, Eq, Structural, Debug)]
pub struct Config {
    /// Memory a freshly admitted worker is expected to claim.
    pub initial_worker_memory: u64,
    /// Extra headroom kept free so the host itself never swaps.
    pub safety_margin: u64,
    /// Minimum number of ticks between two admissions.
    pub cooldown_ticks: u64,
    /// Per-worker memory-pressure threshold handed to the reclaim mechanism.
    pub regulation_threshold: u64,
}

impl Config {
    /// The two headroom amounts must fit in a machine word when added.
    pub open spec fn wf(self) -> bool {
        self.initial_worker_memory + self.safety_margin <= u64::MAX
    }

    /// Free memory strictly above this bound permits admission.
    pub open spec fn admission_floor(self) -> int {
        self.initial_worker_memory + self.safety_margin
    }
}

} // verus!
