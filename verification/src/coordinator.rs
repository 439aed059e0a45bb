//! Orchestration of one governed run.
//!
//! The coordinator walks one request through `Idle`, `Running`,
//! `Reconciling` and `Done`, and at the reconciliation point joins the
//! governor's verdict with the session's raw result into one
//! `ExecutionOutcome`, by a fixed precedence: a heap breach over a CPU
//! timeout over whatever the session itself reported.

use vstd::prelude::*;
use crate::governor::GovernorVerdict;
use crate::governor::spec_resolve_verdict;
use crate::governor::resolve_verdict;
use crate::limits::ResourceLimits;
use crate::outcome::ErrorKind;
use crate::outcome::ExecutionOutcome;
use crate::outcome::ExecutionOutcomeView;
use crate::outcome::RawResult;
use crate::outcome::RawResultView;

verus! {

/// The message a timed-out run fails with.
pub open spec fn timeout_message() -> Seq<char> {
    "execution exceeded time budget"@
}

/// The message a heap-limited run fails with.
pub open spec fn heap_message() -> Seq<char> {
    "heap allocation limit reached"@
}

/// The message of the defensive case: the engine handed back neither a
/// value nor an exception.
pub open spec fn internal_message() -> Seq<char> {
    "no value and no exception"@
}

/// The reconciliation table: the one outcome owed for a governor verdict
/// and a session result. A breach verdict decides alone, heap over CPU;
/// only with no breach does the session's own result stand.
pub open spec fn spec_reconcile(
    verdict: GovernorVerdict,
    raw: RawResultView,
) -> ExecutionOutcomeView {
    match verdict {
        GovernorVerdict::HeapExceeded => ExecutionOutcomeView::Failure(
            ErrorKind::MemoryLimitExceeded,
            heap_message(),
        ),
        GovernorVerdict::CpuTimeout => ExecutionOutcomeView::Failure(
            ErrorKind::Timeout,
            timeout_message(),
        ),
        GovernorVerdict::NoBreach => match raw {
            RawResultView::Value(s) => ExecutionOutcomeView::Success(s),
            RawResultView::CompileError(m) => ExecutionOutcomeView::Failure(
                ErrorKind::CompileError,
                m,
            ),
            RawResultView::ThrownException(m) => ExecutionOutcomeView::Failure(
                ErrorKind::RuntimeException,
                m,
            ),
            RawResultView::Unknown => ExecutionOutcomeView::Failure(
                ErrorKind::InternalError,
                internal_message(),
            ),
        },
    }
}

/// Join a resolved governor verdict with the session's raw result, exactly
/// as the reconciliation table says.
pub fn reconcile_outcome(verdict: GovernorVerdict, raw: RawResult) -> (out: ExecutionOutcome)
    ensures
        out@ == spec_reconcile(verdict, raw@),
{
    match verdict {
        GovernorVerdict::HeapExceeded => ExecutionOutcome::Failure(
            ErrorKind::MemoryLimitExceeded,
            "heap allocation limit reached".to_owned(),
        ),
        GovernorVerdict::CpuTimeout => ExecutionOutcome::Failure(
            ErrorKind::Timeout,
            "execution exceeded time budget".to_owned(),
        ),
        GovernorVerdict::NoBreach => match raw {
            RawResult::Value(s) => ExecutionOutcome::Success(s),
            RawResult::CompileError(m) => ExecutionOutcome::Failure(ErrorKind::CompileError, m),
            RawResult::ThrownException(m) => ExecutionOutcome::Failure(
                ErrorKind::RuntimeException,
                m,
            ),
            RawResult::Unknown => ExecutionOutcome::Failure(
                ErrorKind::InternalError,
                "no value and no exception".to_owned(),
            ),
        },
    }
}

/// The outcome owed for one whole run, from what the coordinator holds once
/// the watchers are quiescent: the recorded verdict, the engine's raw
/// terminating signal, and the session's result.
pub open spec fn spec_outcome(
    recorded: GovernorVerdict,
    execution_terminating: bool,
    raw: RawResultView,
) -> ExecutionOutcomeView {
    spec_reconcile(spec_resolve_verdict(recorded, execution_terminating), raw)
}

/// One request: the script to run. Immutable, and owned solely by the
/// coordinator for the duration of one call.
#[derive(Clone, Debug, PartialEq, Eq)]
pub struct ExecutionRequest {
    pub script: String,
}

impl ExecutionRequest {
    pub fn new(script: String) -> (request: Self)
        ensures
            request.script == script,
    {
        ExecutionRequest { script }
    }
}

/// Where one request stands.
#[derive(Clone, Copy, Debug, PartialEq, Eq, Structural)]
pub enum CoordinatorPhase {
    /// Created; no session started yet.
    Idle,
    /// The session runs, watched by the governor.
    Running,
    /// The session returned; the governor is being stopped.
    Reconciling,
    /// The outcome has been produced.
    Done,
}

/// Drives one request: creates the session, starts the governor, and once
/// the session has returned and the watchers are quiescent, reconciles what
/// they reported into one outcome. One coordinator serves one request; the
/// phases only ever advance.
pub struct ExecutionCoordinator {
    phase: CoordinatorPhase,
    request: ExecutionRequest,
    limits: ResourceLimits,
}

impl ExecutionCoordinator {
    /// Where this request stands.
    pub closed spec fn phase(self) -> CoordinatorPhase {
        self.phase
    }

    /// The request this coordinator serves.
    pub closed spec fn spec_request(self) -> ExecutionRequest {
        self.request
    }

    /// The budgets this request is held to.
    pub closed spec fn spec_limits(self) -> ResourceLimits {
        self.limits
    }

    /// A coordinator for one request under the given budgets.
    pub fn new(request: ExecutionRequest, limits: ResourceLimits) -> (c: Self)
        requires
            limits.wf(),
        ensures
            c.phase() == CoordinatorPhase::Idle,
            c.spec_request() == request,
            c.spec_limits() == limits,
    {
        ExecutionCoordinator { phase: CoordinatorPhase::Idle, request, limits }
    }

    /// The script to hand the session.
    pub fn script(&self) -> (script: &str)
        ensures
            script@ == self.spec_request().script@,
    {
        self.request.script.as_str()
    }

    /// The budgets this request is held to, for the caller that starts the
    /// watchers.
    pub fn limits(&self) -> (limits: ResourceLimits)
        ensures
            limits == self.spec_limits(),
    {
        self.limits
    }

    /// The session and the watchers have been started.
    pub fn begin_run(&mut self)
        requires
            old(self).phase() == CoordinatorPhase::Idle,
        ensures
            final(self).phase() == CoordinatorPhase::Running,
            final(self).spec_request() == old(self).spec_request(),
            final(self).spec_limits() == old(self).spec_limits(),
    {
        self.phase = CoordinatorPhase::Running;
    }

    /// The session's run has returned; the governor is to be stopped before
    /// its verdict is read.
    pub fn session_returned(&mut self)
        requires
            old(self).phase() == CoordinatorPhase::Running,
        ensures
            final(self).phase() == CoordinatorPhase::Reconciling,
            final(self).spec_request() == old(self).spec_request(),
            final(self).spec_limits() == old(self).spec_limits(),
    {
        self.phase = CoordinatorPhase::Reconciling;
    }

    /// With both watchers quiescent, fold the engine's terminating signal
    /// into the recorded verdict and apply the reconciliation table.
    pub fn reconcile(
        &mut self,
        recorded: GovernorVerdict,
        execution_terminating: bool,
        raw: RawResult,
    ) -> (out: ExecutionOutcome)
        requires
            old(self).phase() == CoordinatorPhase::Reconciling,
        ensures
            final(self).phase() == CoordinatorPhase::Done,
            final(self).spec_request() == old(self).spec_request(),
            final(self).spec_limits() == old(self).spec_limits(),
            out@ == spec_outcome(recorded, execution_terminating, raw@),
    {
        self.phase = CoordinatorPhase::Done;
        let verdict = resolve_verdict(recorded, execution_terminating);
        reconcile_outcome(verdict, raw)
    }
}

} // verus!
