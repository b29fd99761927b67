//! The pipeline's error taxonomy: a client error marks malformed caller
//! input, an internal error marks a backend or transport fault. Callers can
//! branch on the kind without matching on message text.

use vstd::prelude::*;
use vstd::string::StringExecFns;

verus! {

/// One of the two failure classes of the pipeline.
#[derive(Debug)]
pub enum Error {
    /// The caller's input was malformed; detected before any backend call.
    Client(String),
    /// The backend, the transport, or the backend's response was at fault.
    Internal(String),
}

impl Error {
    /// True of errors attributable to the caller's input.
    pub open spec fn is_client(&self) -> bool {
        matches!(self, Error::Client(_))
    }

    /// True of errors attributable to the backend or the transport.
    pub open spec fn is_internal(&self) -> bool {
        matches!(self, Error::Internal(_))
    }

    /// The descriptive message the error carries.
    pub open spec fn spec_message(&self) -> Seq<char> {
        match self {
            Error::Client(m) => m@,
            Error::Internal(m) => m@,
        }
    }

    /// Builds a client error from a message.
    pub fn client(msg: &str) -> (e: Error)
        ensures
            e.is_client(),
            e.spec_message() == msg@,
    {
        Error::Client(String::from_str(msg))
    }

    /// Builds an internal error from a message.
    pub fn internal(msg: &str) -> (e: Error)
        ensures
            e.is_internal(),
            e.spec_message() == msg@,
    {
        Error::Internal(String::from_str(msg))
    }

    /// Hands the message out for display at the edge of the system.
    pub fn message(&self) -> (m: &str)
        ensures
            m@ == self.spec_message(),
    {
        match self {
            Error::Client(m) => m.as_str(),
            Error::Internal(m) => m.as_str(),
        }
    }

    /// True exactly of client errors, for callers that branch on the kind.
    pub fn is_client_error(&self) -> (b: bool)
        ensures
            b == self.is_client(),
    {
        matches!(self, Error::Client(_))
    }
}

} // verus!
