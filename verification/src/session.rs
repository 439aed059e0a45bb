//! Classification of one session's raw engine signals.
//!
//! A session compiles and runs exactly one script inside a catch scope. The
//! engine-facing half lives outside this crate; it reports which stage fell
//! short (or the produced value) together with the exception the catch scope
//! holds, and the classification here turns that report into a `RawResult`.

use vstd::prelude::*;
use crate::outcome::RawResult;
use crate::outcome::RawResultView;

verus! {

/// What the engine reported for the single run of one script: how far the
/// stages compile, run and string-coercion got, and the produced text if all
/// three succeeded.
#[derive(Clone, Debug, PartialEq, Eq)]
pub enum EngineSignal {
    /// All stages succeeded; the text is the value's string coercion.
    Produced(String),
    /// Compilation produced no script.
    CompileFailed,
    /// The script compiled, but running it produced no value.
    RunFailed,
    /// The run produced a value that could not be coerced to a string.
    CoercionFailed,
}

/// `EngineSignal` at the level of character sequences.
pub enum EngineSignalView {
    Produced(Seq<char>),
    CompileFailed,
    RunFailed,
    CoercionFailed,
}

impl View for EngineSignal {
    type V = EngineSignalView;

    open spec fn view(&self) -> EngineSignalView {
        match self {
            EngineSignal::Produced(s) => EngineSignalView::Produced(s@),
            EngineSignal::CompileFailed => EngineSignalView::CompileFailed,
            EngineSignal::RunFailed => EngineSignalView::RunFailed,
            EngineSignal::CoercionFailed => EngineSignalView::CoercionFailed,
        }
    }
}

/// The caught exception message, at the level of character sequences.
pub open spec fn exception_view(exception: Option<String>) -> Option<Seq<char>> {
    match exception {
        Option::Some(m) => Option::Some(m@),
        Option::None => Option::None,
    }
}

/// What `RawResult` a session reports for a given signal and caught
/// exception. A produced value is the value; a failed stage is classified by
/// the exception the catch scope holds: a compile failure with a diagnostic
/// is a compile error, a run or coercion failure with a caught exception is
/// a thrown exception, and a failed stage with nothing caught is the
/// defensive unknown case.
pub open spec fn spec_classify(
    signal: EngineSignalView,
    exception: Option<Seq<char>>,
) -> RawResultView {
    match signal {
        EngineSignalView::Produced(s) => RawResultView::Value(s),
        EngineSignalView::CompileFailed => match exception {
            Option::Some(m) => RawResultView::CompileError(m),
            Option::None => RawResultView::Unknown,
        },
        EngineSignalView::RunFailed => match exception {
            Option::Some(m) => RawResultView::ThrownException(m),
            Option::None => RawResultView::Unknown,
        },
        EngineSignalView::CoercionFailed => match exception {
            Option::Some(m) => RawResultView::ThrownException(m),
            Option::None => RawResultView::Unknown,
        },
    }
}

/// Turn the engine's raw report into the session's `RawResult`.
pub fn classify_raw(signal: EngineSignal, exception: Option<String>) -> (raw: RawResult)
    ensures
        raw@ == spec_classify(signal@, exception_view(exception)),
{
    match signal {
        EngineSignal::Produced(s) => RawResult::Value(s),
        EngineSignal::CompileFailed => match exception {
            Option::Some(m) => RawResult::CompileError(m),
            Option::None => RawResult::Unknown,
        },
        EngineSignal::RunFailed => match exception {
            Option::Some(m) => RawResult::ThrownException(m),
            Option::None => RawResult::Unknown,
        },
        EngineSignal::CoercionFailed => match exception {
            Option::Some(m) => RawResult::ThrownException(m),
            Option::None => RawResult::Unknown,
        },
    }
}

} // verus!
