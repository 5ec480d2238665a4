//! Why one admission attempt can fail.
//!
//! Startup failures abort before any worker is admitted; a provisioning
//! failure is fatal to that one admission attempt and to nothing else.
//! A regulation failure is confined to its worker and tick (see
//! [`crate::regulation`]); a teardown failure never blocks the rest of
//! the teardown (see [`crate::controller::Controller::shutdown`]).

use vstd::prelude::*;

verus! {

/// Why one admission attempt produced no worker.  Any of these aborts
/// the attempt: a partially constructed worker is never added to the
/// live set.
#[derive(Clone, PartialEq, Eq, Debug)]
pub enum ProvisionError {
    /// The definition template could not be read, or the rendered
    /// document could not be written.
    TemplateIo,
    /// The image tool exited non-zero; carries its diagnostic output.
    DiskProvision(String),
    /// The hypervisor refused the worker's definition.
    Definition,
    /// The hypervisor could not start the worker.
    Start,
    /// No regulation context could be bound to the worker's
    /// resource-control group.
    RegulationInit,
}

} // verus!
