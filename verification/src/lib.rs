//! Resource-governed execution of a single untrusted script.
//!
//! The crate holds the decision logic of a sandboxing primitive: a script is
//! run once against a CPU-time budget and a heap-size budget, and the caller
//! receives either the stringified result or a classified failure. The engine
//! itself, the watcher threads and the wire framing live outside this crate;
//! here stand the data model (limits, verdicts, raw results, outcomes), the
//! precedence-keeping verdict slot shared by the two watchers, the classification of
//! the engine's raw signals, and the reconciliation of a governor verdict
//! with a session result into one `ExecutionOutcome`.

pub mod coordinator;
pub mod governor;
pub mod laws;
pub mod limits;
pub mod outcome;
pub mod session;
