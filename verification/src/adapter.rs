//! The verified half of the execution-client adapter: the response facets
//! and wait mode that every submission must request, and the mapping of a
//! transport fault onto the pipeline's internal error. The network call
//! itself is I/O and lives outside the library.

use vstd::prelude::*;
use vstd::string::StringExecFns;
use crate::errors::Error;

verus! {

/// Which facets of the backend's response a submission asks for.
pub struct ResponseOptions {
    /// Ask for the emitted events.
    pub show_events: bool,
    /// Ask for the balance changes.
    pub show_balance_changes: bool,
    /// Ask for the raw bytes of the submitted transaction.
    pub show_raw_input: bool,
    /// Ask for the raw effects bytes.
    pub show_raw_effects: bool,
}

impl ResponseOptions {
    /// Requests nothing; facets are added one by one.
    pub fn new() -> (r: ResponseOptions)
        ensures
            !r.show_events,
            !r.show_balance_changes,
            !r.show_raw_input,
            !r.show_raw_effects,
    {
        ResponseOptions {
            show_events: false,
            show_balance_changes: false,
            show_raw_input: false,
            show_raw_effects: false,
        }
    }

    /// Also ask for the emitted events.
    pub fn with_events(self) -> (r: ResponseOptions)
        ensures
            r == (ResponseOptions { show_events: true, ..self }),
    {
        ResponseOptions { show_events: true, ..self }
    }

    /// Also ask for the balance changes.
    pub fn with_balance_changes(self) -> (r: ResponseOptions)
        ensures
            r == (ResponseOptions { show_balance_changes: true, ..self }),
    {
        ResponseOptions { show_balance_changes: true, ..self }
    }

    /// Also ask for the raw transaction bytes.
    pub fn with_raw_input(self) -> (r: ResponseOptions)
        ensures
            r == (ResponseOptions { show_raw_input: true, ..self }),
    {
        ResponseOptions { show_raw_input: true, ..self }
    }

    /// Also ask for the raw effects bytes.
    pub fn with_raw_effects(self) -> (r: ResponseOptions)
        ensures
            r == (ResponseOptions { show_raw_effects: true, ..self }),
    {
        ResponseOptions { show_raw_effects: true, ..self }
    }
}

/// How long a submission waits before the backend answers.
pub enum ExecuteTransactionRequestType {
    /// Return once the transaction is accepted, before effects exist.
    WaitForEffectsCert,
    /// Return only after local finalization, when full effects can be
    /// reported. The pipeline always uses this mode: effects are required
    /// downstream, so the faster mode is deliberately forgone.
    WaitForLocalExecution,
}

/// The options and wait mode of every submission this pipeline makes: all
/// four facets — events, balance changes, raw input, raw effects — are
/// mandatory, and the call waits for local execution.
pub fn submission_request() -> (r: (ResponseOptions, ExecuteTransactionRequestType))
    ensures
        r.0.show_events,
        r.0.show_balance_changes,
        r.0.show_raw_input,
        r.0.show_raw_effects,
        r.1 == ExecuteTransactionRequestType::WaitForLocalExecution,
{
    let options = ResponseOptions::new()
        .with_events()
        .with_balance_changes()
        .with_raw_input()
        .with_raw_effects();
    (options, ExecuteTransactionRequestType::WaitForLocalExecution)
}

/// Wraps a backend or transport fault in the pipeline's internal error:
/// the failure is not attributable to the caller's input.
pub fn submission_failure(cause: &str) -> (e: Error)
    ensures
        e.is_internal(),
        e.spec_message() == "submission failed: "@ + cause@,
{
    let m = String::from_str("submission failed: ").concat(cause);
    Error::Internal(m)
}

} // verus!
