//! The two budgets one run is held to.

use vstd::prelude::*;

verus! {

/// Both budgets for one run: a CPU-time budget in milliseconds and a heap
/// ceiling in bytes. Immutable per request; both fields are positive.
#[derive(Clone, Copy, Debug, PartialEq, Eq, Structural)]
pub struct ResourceLimits {
    /// CPU-time budget in milliseconds.
    pub max_execution_time_ms: u64,
    /// Heap ceiling in bytes.
    pub max_heap_bytes: usize,
}

impl ResourceLimits {
    /// Both budgets are positive.
    pub open spec fn wf(self) -> bool {
        self.max_execution_time_ms > 0 && self.max_heap_bytes > 0
    }

    /// Limits supplied by the caller; zero budgets are not meaningful.
    pub fn new(max_execution_time_ms: u64, max_heap_bytes: usize) -> (limits: Self)
        requires
            max_execution_time_ms > 0,
            max_heap_bytes > 0,
        ensures
            limits.max_execution_time_ms == max_execution_time_ms,
            limits.max_heap_bytes == max_heap_bytes,
            limits.wf(),
    {
        ResourceLimits { max_execution_time_ms, max_heap_bytes }
    }
}

impl Default for ResourceLimits {
    /// The default budgets: 300 ms of CPU time and a 16 MiB heap ceiling.
    fn default() -> (limits: Self)
        ensures
            limits.max_execution_time_ms == 300,
            limits.max_heap_bytes == 16 * 1024 * 1024,
            limits.wf(),
    {
        ResourceLimits { max_execution_time_ms: 300, max_heap_bytes: 16 * 1024 * 1024 }
    }
}

} // verus!
