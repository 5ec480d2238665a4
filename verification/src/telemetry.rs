//! The per-tick telemetry record.
//!
//! One record is written per completed tick: the seconds elapsed since
//! the controller started, the host's CPU utilization and used memory,
//! the number of live workers, and the eighteen power metrics,
//! flattened in the meter's order.  Records are append-only; the
//! controller counts them and never mutates one after it is built.

use vstd::prelude::*;
use crate::power::PowerSnapshot;

verus! {

/// One durable telemetry row.  `cpu_raw` is the raw bit pattern of the
/// host's floating-point CPU utilization; the power fields are raw bit
/// patterns too (see [`crate::power`]).
#[derive(Clone, Copy, PartialEq, Eq, Structural, Debug)]
pub struct TelemetryRecord {
    /// Seconds since the controller started, monotonically non-decreasing.
    pub timestamp: u64,
    /// Host CPU utilization in percent, as a raw bit pattern.
    pub cpu_raw: u64,
    /// Host used memory in megabytes.
    pub used_memory_mb: u64,
    /// Number of workers admitted so far.
    pub worker_count: u64,
    /// The host-wide power reading of this tick.
    pub power: PowerSnapshot,
}

impl TelemetryRecord {
    /// The record's fields in output order: the four controller fields
    /// first, then the eighteen power metrics in the meter's order.
    pub open spec fn spec_row(self) -> Seq<u64> {
        seq![self.timestamp, self.cpu_raw, self.used_memory_mb, self.worker_count]
            + self.power.spec_row()
    }

    /// Flattens the record into its output order, the shape of one
    /// durable row.
    pub fn to_row(&self) -> (r: Vec<u64>)
        ensures
            r@ =~= self.spec_row(),
    {
        let mut r: Vec<u64> = Vec::new();
        r.push(self.timestamp);
        r.push(self.cpu_raw);
        r.push(self.used_memory_mb);
        r.push(self.worker_count);
        let mut power_row = self.power.to_row();
        r.append(&mut power_row);
        proof {
            assert(r@ =~= self.spec_row());
        }
        r
    }
}

} // verus!
