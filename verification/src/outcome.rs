//! Result taxonomy: what one governed run reports back.

use vstd::prelude::*;

verus! {

/// Why a run failed, as reported to the caller.
#[derive(Clone, Copy, Debug, PartialEq, Eq, Structural)]
pub enum ErrorKind {
    /// The script was malformed and never ran.
    CompileError,
    /// The script threw; the message is the engine's rendered exception.
    RuntimeException,
    /// The CPU-time budget elapsed and the run was aborted.
    Timeout,
    /// Allocation approached the heap ceiling and the run was aborted.
    MemoryLimitExceeded,
    /// The engine returned no value and no exception; should not occur.
    InternalError,
}

/// The session's direct outcome, before any budget verdict is applied.
#[derive(Clone, Debug, PartialEq, Eq)]
pub enum RawResult {
    /// The run produced a value; the text is its engine-native string coercion.
    Value(String),
    /// Compilation failed; the text is the engine's diagnostic.
    CompileError(String),
    /// The run threw; the text is the engine's rendered exception message.
    ThrownException(String),
    /// Neither a value nor an exception was observable.
    Unknown,
}

/// `RawResult` at the level of character sequences.
pub enum RawResultView {
    Value(Seq<char>),
    CompileError(Seq<char>),
    ThrownException(Seq<char>),
    Unknown,
}

impl View for RawResult {
    type V = RawResultView;

    open spec fn view(&self) -> RawResultView {
        match self {
            RawResult::Value(s) => RawResultView::Value(s@),
            RawResult::CompileError(m) => RawResultView::CompileError(m@),
            RawResult::ThrownException(m) => RawResultView::ThrownException(m@),
            RawResult::Unknown => RawResultView::Unknown,
        }
    }
}

/// The externally visible result of one governed run.
#[derive(Clone, Debug, PartialEq, Eq)]
pub enum ExecutionOutcome {
    /// The script completed within both budgets; the text is the
    /// stringified value it produced.
    Success(String),
    /// The run stopped short of a value, and this is why.
    Failure(ErrorKind, String),
}

/// `ExecutionOutcome` at the level of character sequences.
pub enum ExecutionOutcomeView {
    Success(Seq<char>),
    Failure(ErrorKind, Seq<char>),
}

impl View for ExecutionOutcome {
    type V = ExecutionOutcomeView;

    open spec fn view(&self) -> ExecutionOutcomeView {
        match self {
            ExecutionOutcome::Success(s) => ExecutionOutcomeView::Success(s@),
            ExecutionOutcome::Failure(kind, m) => ExecutionOutcomeView::Failure(*kind, m@),
        }
    }
}

/// An outcome as the transport collaborator renders it: exactly one of the
/// two fields is populated, `result` on success and `error` on failure.
pub struct WireResult {
    pub result: String,
    pub error: String,
}

/// Render an outcome for the wire: a success puts its text in `result` and
/// leaves `error` empty, a failure puts its message in `error` and leaves
/// `result` empty.
pub fn render_outcome(out: ExecutionOutcome) -> (wire: WireResult)
    ensures
        out@ matches ExecutionOutcomeView::Success(s) ==> wire.result@ == s && wire.error@
            == Seq::<char>::empty(),
        out@ matches ExecutionOutcomeView::Failure(kind, m) ==> wire.result@ == Seq::<
            char,
        >::empty() && wire.error@ == m,
{
    match out {
        ExecutionOutcome::Success(s) => WireResult { result: s, error: String::new() },
        ExecutionOutcome::Failure(_, m) => WireResult { result: String::new(), error: m },
    }
}

} // verus!
