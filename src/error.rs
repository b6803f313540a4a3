//! Errors reported by the client.

use vstd::prelude::*;

verus! {

#[derive(Debug, Clone, Copy, PartialEq, Eq, Structural)]
pub enum Error {
    /// The payload could not be converted to JSON.
    JsonConversionFailed,
    /// Transferring the JSON to the endpoint failed. This does not say whether
    /// the remote side rejected it.
    JsonTransferFailed,
    /// A global instance is already registered.
    GlobalInstanceExists,
}

impl Error {
    /// A human-readable description of the error.
    pub fn description(&self) -> (r: &'static str)
        ensures
            r@ == match *self {
                Error::JsonConversionFailed => "conversion to json failed"@,
                Error::JsonTransferFailed => "while transferring the json to Bugsnag, a problem occurred"@,
                Error::GlobalInstanceExists => "a global instance already exists"@,
            },
    {
        match *self {
            Error::JsonConversionFailed => "conversion to json failed",
            Error::JsonTransferFailed => "while transferring the json to Bugsnag, a problem occurred",
            Error::GlobalInstanceExists => "a global instance already exists",
        }
    }
}

/// How severe a reported error is.
#[derive(Debug, Clone, Copy, PartialEq, Eq, Structural)]
pub enum Severity {
    Error,
    Warning,
    Info,
}

} // verus!
