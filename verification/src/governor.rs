//! The resource governor: two watchers, one verdict.
//!
//! One run is watched by a CPU-time watchdog and a near-heap-limit monitor.
//! Either may decide that its budget was breached; each writes its verdict
//! at most once, and a heap breach takes precedence over a CPU timeout
//! whatever order the two fired in. The watchers themselves run outside
//! this crate (a timer thread, an engine callback); what stands here is the
//! state they share and the decision each one takes.

use vstd::prelude::*;

verus! {

/// Which budget, if any, was breached: a tri-state flag written by the
/// watchers. Each watcher writes at most once, and the slot keeps the
/// strongest verdict, a heap breach over a CPU timeout, so a heap breach
/// decides whatever order the watchers fired in.
#[derive(Clone, Copy, Debug, PartialEq, Eq, Structural)]
pub enum GovernorVerdict {
    /// Neither watcher fired.
    NoBreach,
    /// The CPU-time watchdog fired.
    CpuTimeout,
    /// The near-heap-limit monitor fired.
    HeapExceeded,
}

/// What one watcher's write leaves in the slot: the stronger of the two
/// verdicts, in the precedence order heap breach over CPU timeout over no
/// breach. A first write lands as it is; a heap breach lands even over an
/// already-recorded CPU timeout; nothing else displaces a recorded breach,
/// so no verdict is ever lost or cleared.
pub open spec fn spec_record(current: GovernorVerdict, write: GovernorVerdict) -> GovernorVerdict {
    if current == GovernorVerdict::NoBreach {
        write
    } else if current == GovernorVerdict::CpuTimeout && write == GovernorVerdict::HeapExceeded {
        GovernorVerdict::HeapExceeded
    } else {
        current
    }
}

/// The slot both watchers write their verdict to. It keeps the strongest
/// verdict written so far: a recorded breach is never cleared, and when both
/// watchers fire, the heap breach wins regardless of which fired first.
pub struct VerdictSlot {
    verdict: GovernorVerdict,
}

impl VerdictSlot {
    /// The verdict the slot holds.
    pub closed spec fn recorded(self) -> GovernorVerdict {
        self.verdict
    }

    /// A fresh slot for one run: no breach recorded yet.
    pub fn new() -> (slot: Self)
        ensures
            slot.recorded() == GovernorVerdict::NoBreach,
    {
        VerdictSlot { verdict: GovernorVerdict::NoBreach }
    }

    /// One watcher's write: the slot keeps the stronger verdict. A heap
    /// breach lands even over an earlier CPU timeout; a recorded breach is
    /// never cleared.
    pub fn record(&mut self, verdict: GovernorVerdict)
        ensures
            final(self).recorded() == spec_record(old(self).recorded(), verdict),
    {
        if self.verdict == GovernorVerdict::NoBreach {
            self.verdict = verdict;
        } else if self.verdict == GovernorVerdict::CpuTimeout && verdict
            == GovernorVerdict::HeapExceeded {
            self.verdict = GovernorVerdict::HeapExceeded;
        }
    }

    /// Read the verdict, once both watchers are quiescent.
    pub fn read(&self) -> (verdict: GovernorVerdict)
        ensures
            verdict == self.recorded(),
    {
        self.verdict
    }
}

/// The CPU watchdog's decision when its timer elapses: request an abort
/// exactly when the run has not finished. A watchdog that wakes after the
/// `finished` flag was set stays silent, so a run that completed naturally
/// is never aborted late.
pub fn watchdog_should_abort(finished: bool) -> (abort: bool)
    ensures
        abort == !finished,
{
    !finished
}

/// The ceiling handed back to the engine when the heap monitor fires: the
/// current limit doubled, saturating at `usize::MAX`, so the engine's
/// allocator survives until the abort request lands. Pure and
/// allocation-free, so it is safe to call from inside the engine's
/// allocation path.
pub fn raised_heap_ceiling(current_heap_limit: usize) -> (new_limit: usize)
    ensures
        2 * current_heap_limit <= usize::MAX ==> new_limit == 2 * current_heap_limit,
        2 * current_heap_limit > usize::MAX ==> new_limit == usize::MAX,
{
    if current_heap_limit > usize::MAX / 2 {
        usize::MAX
    } else {
        current_heap_limit * 2
    }
}

/// One invocation of the near-heap-limit monitor, called on the execution
/// thread when allocation approaches the ceiling. It records `HeapExceeded`
/// — which lands whatever the slot already holds — and returns the raised
/// ceiling. The abort itself is requested through the thread-safe handle by
/// the caller, never from inside the monitor.
pub fn heap_pressure_step(slot: &mut VerdictSlot, current_heap_limit: usize) -> (new_limit:
    usize)
    ensures
        final(slot).recorded() == spec_record(
            old(slot).recorded(),
            GovernorVerdict::HeapExceeded,
        ),
        2 * current_heap_limit <= usize::MAX ==> new_limit == 2 * current_heap_limit,
        2 * current_heap_limit > usize::MAX ==> new_limit == usize::MAX,
{
    slot.record(GovernorVerdict::HeapExceeded);
    raised_heap_ceiling(current_heap_limit)
}

/// The verdict as a small integer, ordered by precedence: no breach below a
/// CPU timeout below a heap breach. Under this encoding, taking the numeric
/// maximum of the slot's code and a write's code is exactly `spec_record`,
/// so a lock-free slot can be kept as an atomic integer written with a
/// fetch-max.
pub open spec fn spec_encode_verdict(verdict: GovernorVerdict) -> u8 {
    match verdict {
        GovernorVerdict::NoBreach => 0,
        GovernorVerdict::CpuTimeout => 1,
        GovernorVerdict::HeapExceeded => 2,
    }
}

/// The verdict a code stands for; codes above the known range are read as
/// no breach.
pub open spec fn spec_decode_verdict(code: u8) -> GovernorVerdict {
    if code == 1 {
        GovernorVerdict::CpuTimeout
    } else if code == 2 {
        GovernorVerdict::HeapExceeded
    } else {
        GovernorVerdict::NoBreach
    }
}

/// Encode a verdict for an atomic integer slot. Pure and allocation-free,
/// so it is safe to call from inside the engine's allocation path.
pub fn encode_verdict(verdict: GovernorVerdict) -> (code: u8)
    ensures
        code == spec_encode_verdict(verdict),
{
    match verdict {
        GovernorVerdict::NoBreach => 0,
        GovernorVerdict::CpuTimeout => 1,
        GovernorVerdict::HeapExceeded => 2,
    }
}

/// Decode what an atomic integer slot holds.
pub fn decode_verdict(code: u8) -> (verdict: GovernorVerdict)
    ensures
        verdict == spec_decode_verdict(code),
{
    if code == 1 {
        GovernorVerdict::CpuTimeout
    } else if code == 2 {
        GovernorVerdict::HeapExceeded
    } else {
        GovernorVerdict::NoBreach
    }
}

/// Whether a pending termination request must be cleared once the verdict
/// is read, so a stale abort cannot bleed past this request: exactly when a
/// breach was recorded or the engine still reports execution terminating.
pub fn should_cancel_pending_abort(
    recorded: GovernorVerdict,
    execution_terminating: bool,
) -> (cancel: bool)
    ensures
        cancel == (recorded != GovernorVerdict::NoBreach || execution_terminating),
{
    recorded != GovernorVerdict::NoBreach || execution_terminating
}

/// The governor's verdict once the engine's own signal is folded in. A
/// recorded breach stands as it is; with none recorded, a raw
/// "execution terminating" signal from the engine can only have come from a
/// termination request whose writer was not observed, and counts as a CPU
/// timeout; otherwise no budget was breached.
pub open spec fn spec_resolve_verdict(
    recorded: GovernorVerdict,
    execution_terminating: bool,
) -> GovernorVerdict {
    match recorded {
        GovernorVerdict::NoBreach => if execution_terminating {
            GovernorVerdict::CpuTimeout
        } else {
            GovernorVerdict::NoBreach
        },
        _ => recorded,
    }
}

/// Fold the engine's raw "execution terminating" signal into the recorded
/// verdict; the recorded verdict takes precedence over the raw signal.
pub fn resolve_verdict(recorded: GovernorVerdict, execution_terminating: bool) -> (verdict:
    GovernorVerdict)
    ensures
        verdict == spec_resolve_verdict(recorded, execution_terminating),
{
    match recorded {
        GovernorVerdict::NoBreach => if execution_terminating {
            GovernorVerdict::CpuTimeout
        } else {
            GovernorVerdict::NoBreach
        },
        _ => recorded,
    }
}

} // verus!
