//! The power meter's fixed-order metric vector.
//!
//! The meter reports eighteen instantaneous electrical metrics as one
//! ordered vector; the order is part of its interface and must never be
//! rearranged.  The readings are floating-point on the wire, so the
//! library carries each one as its raw bit pattern (a plain machine
//! word) and never computes with it; the caller converts at the edge.

use vstd::prelude::*;

verus! {

/// How many metrics the meter reports per reading.
pub const POWER_METRIC_COUNT: usize = 18;

/// One host-wide power reading, each field the raw bit pattern of the
/// meter's value, in the meter's fixed order.
#[derive(Clone, Copy, PartialEq, Eq, Structural, Debug)]
pub struct PowerSnapshot {
    pub watts: u64,
    pub volts: u64,
    pub amps: u64,
    pub kwh: u64,
    pub cost: u64,
    pub mo_kwh: u64,
    pub mo_cost: u64,
    pub max_watts: u64,
    pub min_volts: u64,
    pub max_amps: u64,
    pub min_watts: u64,
    pub max_volts: u64,
    pub min_amps: u64,
    pub power_factor: u64,
    pub duty_cycle: u64,
    pub power_cycle: u64,
    pub frequency: u64,
    pub va: u64,
}

impl PowerSnapshot {
    /// The snapshot's fields in the meter's wire order.
    pub open spec fn spec_row(self) -> Seq<u64> {
        seq![
            self.watts,
            self.volts,
            self.amps,
            self.kwh,
            self.cost,
            self.mo_kwh,
            self.mo_cost,
            self.max_watts,
            self.min_volts,
            self.max_amps,
            self.min_watts,
            self.max_volts,
            self.min_amps,
            self.power_factor,
            self.duty_cycle,
            self.power_cycle,
            self.frequency,
            self.va,
        ]
    }

    /// Names the metrics of one raw meter reading.  Returns a snapshot
    /// exactly when the reading has the meter's fixed width, with each
    /// field taken from its fixed position.
    pub fn from_row(row: &Vec<u64>) -> (r: Option<PowerSnapshot>)
        ensures
            r is Some <==> row@.len() == POWER_METRIC_COUNT,
            r matches Some(p) ==> p.spec_row() =~= row@,
    {
        if row.len() != POWER_METRIC_COUNT {
            return None;
        }
        let p = PowerSnapshot {
            watts: row[0],
            volts: row[1],
            amps: row[2],
            kwh: row[3],
            cost: row[4],
            mo_kwh: row[5],
            mo_cost: row[6],
            max_watts: row[7],
            min_volts: row[8],
            max_amps: row[9],
            min_watts: row[10],
            max_volts: row[11],
            min_amps: row[12],
            power_factor: row[13],
            duty_cycle: row[14],
            power_cycle: row[15],
            frequency: row[16],
            va: row[17],
        };
        proof {
            assert(p.spec_row() =~= row@);
        }
        Some(p)
    }

    /// Flattens the snapshot back into the meter's wire order.
    pub fn to_row(&self) -> (r: Vec<u64>)
        ensures
            r@ =~= self.spec_row(),
    {
        let mut r: Vec<u64> = Vec::new();
        r.push(self.watts);
        r.push(self.volts);
        r.push(self.amps);
        r.push(self.kwh);
        r.push(self.cost);
        r.push(self.mo_kwh);
        r.push(self.mo_cost);
        r.push(self.max_watts);
        r.push(self.min_volts);
        r.push(self.max_amps);
        r.push(self.min_watts);
        r.push(self.max_volts);
        r.push(self.min_amps);
        r.push(self.power_factor);
        r.push(self.duty_cycle);
        r.push(self.power_cycle);
        r.push(self.frequency);
        r.push(self.va);
        proof {
            assert(r@ =~= self.spec_row());
        }
        r
    }
}

} // verus!
