//! Resource accounting and call traces produced by the virtual machine.

use vstd::prelude::*;

verus! {

/// Virtual-machine resources consumed by one run.
#[derive(Clone, Copy, Debug, PartialEq, Eq, Structural)]
pub struct ExecutionResources {
    /// Steps executed by the virtual machine.
    pub n_steps: u64,
    /// Memory cells allocated but never written.
    pub n_memory_holes: u64,
}

/// Trace of one call into a contract entry point. Produced by the external
/// virtual machine; not every account variant produces one.
#[derive(Clone, Copy, Debug, PartialEq, Eq, Structural)]
pub struct CallInfo {
    /// Resources the traced call consumed.
    pub resources: ExecutionResources,
}

} // verus!
