//! The properties the pipeline is held to, stated once and proved.
//!
//! Each lemma speaks of the spec functions that the executable functions'
//! own contracts are stated over, so what is proved here holds of every run
//! of the pipeline: classify the session's signals, resolve the governor's
//! verdict, reconcile the two.

use vstd::prelude::*;
use crate::coordinator::heap_message;
use crate::coordinator::spec_outcome;
use crate::coordinator::timeout_message;
use crate::governor::GovernorVerdict;
use crate::governor::spec_decode_verdict;
use crate::governor::spec_encode_verdict;
use crate::governor::spec_record;
use crate::governor::spec_resolve_verdict;
use crate::outcome::ErrorKind;
use crate::outcome::ExecutionOutcomeView;
use crate::outcome::RawResultView;
use crate::session::EngineSignalView;
use crate::session::spec_classify;

verus! {

/// A run that breaches no budget and produces a value succeeds, and the
/// outcome carries exactly the engine's string coercion of that value —
/// whatever the catch scope may hold.
pub proof fn lemma_clean_value_run_is_success(s: Seq<char>, exception: Option<Seq<char>>)
    ensures
        spec_outcome(
            GovernorVerdict::NoBreach,
            false,
            spec_classify(EngineSignalView::Produced(s), exception),
        ) == ExecutionOutcomeView::Success(s),
{
}

/// A script that fails to compile, with no budget breached, is reported as
/// a compile error carrying the engine's diagnostic.
pub proof fn lemma_compile_failure_is_compile_error(diagnostic: Seq<char>)
    ensures
        spec_outcome(
            GovernorVerdict::NoBreach,
            false,
            spec_classify(EngineSignalView::CompileFailed, Some(diagnostic)),
        ) == ExecutionOutcomeView::Failure(ErrorKind::CompileError, diagnostic),
{
}

/// A script that throws, with no budget breached, is reported as a runtime
/// exception carrying the thrown message — whether the run produced no
/// value at all or a value that would not coerce to a string.
pub proof fn lemma_thrown_exception_is_runtime_failure(message: Seq<char>)
    ensures
        spec_outcome(
            GovernorVerdict::NoBreach,
            false,
            spec_classify(EngineSignalView::RunFailed, Some(message)),
        ) == ExecutionOutcomeView::Failure(ErrorKind::RuntimeException, message),
        spec_outcome(
            GovernorVerdict::NoBreach,
            false,
            spec_classify(EngineSignalView::CoercionFailed, Some(message)),
        ) == ExecutionOutcomeView::Failure(ErrorKind::RuntimeException, message),
{
}

/// A breached CPU budget — recorded by the watchdog, or visible only as the
/// engine's raw terminating signal — yields the timeout failure, whatever
/// the session itself reported.
pub proof fn lemma_cpu_breach_is_timeout(
    recorded: GovernorVerdict,
    execution_terminating: bool,
    raw: RawResultView,
)
    requires
        recorded == GovernorVerdict::CpuTimeout || (recorded == GovernorVerdict::NoBreach
            && execution_terminating),
    ensures
        spec_outcome(recorded, execution_terminating, raw) == ExecutionOutcomeView::Failure(
            ErrorKind::Timeout,
            timeout_message(),
        ),
{
}

/// A recorded heap breach yields the memory-limit failure, whatever the
/// session reported and whatever the engine's raw signal says: the heap
/// verdict takes precedence over both.
pub proof fn lemma_heap_breach_is_memory_failure(
    execution_terminating: bool,
    raw: RawResultView,
)
    ensures
        spec_outcome(GovernorVerdict::HeapExceeded, execution_terminating, raw)
            == ExecutionOutcomeView::Failure(ErrorKind::MemoryLimitExceeded, heap_message()),
{
}

/// The outcome is a success exactly when no budget was breached, the engine
/// raised no terminating signal, and the session produced a value; and then
/// the success carries that value.
pub proof fn lemma_success_iff_clean_value(
    recorded: GovernorVerdict,
    execution_terminating: bool,
    raw: RawResultView,
)
    ensures
        spec_outcome(recorded, execution_terminating, raw) matches ExecutionOutcomeView::Success(
            s,
        ) ==> recorded == GovernorVerdict::NoBreach && !execution_terminating && raw
            == RawResultView::Value(s),
        (recorded == GovernorVerdict::NoBreach && !execution_terminating) ==> (raw matches
        RawResultView::Value(s) ==> spec_outcome(recorded, execution_terminating, raw)
            == ExecutionOutcomeView::Success(s)),
{
}

/// Two independent runs whose watchers recorded the same verdict, whose
/// engine raised the same raw signal, and whose sessions reported the same
/// raw result are owed the same outcome: the reconciled outcome is a
/// function of those three inputs alone.
pub proof fn lemma_same_inputs_same_outcome(
    recorded1: GovernorVerdict,
    execution_terminating1: bool,
    raw1: RawResultView,
    recorded2: GovernorVerdict,
    execution_terminating2: bool,
    raw2: RawResultView,
)
    requires
        recorded1 == recorded2,
        execution_terminating1 == execution_terminating2,
        raw1 == raw2,
    ensures
        spec_outcome(recorded1, execution_terminating1, raw1) == spec_outcome(
            recorded2,
            execution_terminating2,
            raw2,
        ),
{
}

/// A heap breach decides regardless of firing order: the heap monitor's
/// write lands whatever the slot already holds, and the reconciled outcome
/// is then the memory-limit failure, whatever the session reported and
/// whatever the engine's raw signal says.
pub proof fn lemma_heap_fire_decides(
    current: GovernorVerdict,
    execution_terminating: bool,
    raw: RawResultView,
)
    ensures
        spec_record(current, GovernorVerdict::HeapExceeded) == GovernorVerdict::HeapExceeded,
        spec_outcome(
            spec_record(current, GovernorVerdict::HeapExceeded),
            execution_terminating,
            raw,
        ) == ExecutionOutcomeView::Failure(ErrorKind::MemoryLimitExceeded, heap_message()),
{
}

/// A recorded breach is never cleared, and nothing but a heap breach
/// displaces it: a later write either upgrades a CPU timeout to the heap
/// verdict or leaves the slot exactly as the first writer left it.
pub proof fn lemma_recorded_breach_never_cleared(
    first: GovernorVerdict,
    later: GovernorVerdict,
)
    requires
        first != GovernorVerdict::NoBreach,
    ensures
        spec_record(first, later) != GovernorVerdict::NoBreach,
        later != GovernorVerdict::HeapExceeded ==> spec_record(first, later) == first,
{
}

/// The atomic encoding agrees with the slot: under the precedence-ordered
/// codes, a fetch-max of the slot's code and a write's code reads back as
/// exactly what `record` would have left in a `VerdictSlot`.
pub proof fn lemma_encoded_record_matches_slot(
    current: GovernorVerdict,
    write: GovernorVerdict,
)
    ensures
        spec_decode_verdict(
            if spec_encode_verdict(current) >= spec_encode_verdict(write) {
                spec_encode_verdict(current)
            } else {
                spec_encode_verdict(write)
            },
        ) == spec_record(current, write),
{
}

/// A recorded breach stands on its own: the engine's raw terminating signal
/// never changes a verdict that a watcher already recorded.
pub proof fn lemma_recorded_verdict_stands(
    recorded: GovernorVerdict,
    execution_terminating: bool,
)
    requires
        recorded != GovernorVerdict::NoBreach,
    ensures
        spec_resolve_verdict(recorded, execution_terminating) == recorded,
{
}

} // verus!
