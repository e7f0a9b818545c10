//! The error vocabulary of the trace-export sink. The sink itself talks
//! HTTP to a remote backend and lives with the input/output shell around
//! this library; the core only names how exporting can fail.

use vstd::prelude::*;
use vstd::string::StringExecFns;

verus! {

/// Error raised by a trace-export sink.
#[derive(Debug, Clone, PartialEq)]
pub enum TracingError {
    /// The remote backend refused or the transport failed.
    HttpError(String),
    /// Anything else.
    Other(String),
}

/// The diagnostic line of a tracing error.
pub open spec fn spec_tracing_error_message(e: TracingError) -> Seq<char> {
    match e {
        TracingError::HttpError(m) => "Tracing HttpError: "@ + m@,
        TracingError::Other(m) => "Tracing Other: "@ + m@,
    }
}

impl TracingError {
    /// Renders the error as a diagnostic line.
    pub fn message(&self) -> (r: String)
        ensures
            r@ == spec_tracing_error_message(*self),
    {
        match self {
            TracingError::HttpError(m) => {
                let mut s: String = "Tracing HttpError: ".to_owned();
                s.append(m.as_str());
                s
            },
            TracingError::Other(m) => {
                let mut s: String = "Tracing Other: ".to_owned();
                s.append(m.as_str());
                s
            },
        }
    }
}

} // verus!
