use vstd::prelude::*;

verus! {

/// Classifies a public backend failure independently of any transport.
#[derive(Clone, Copy, Debug, PartialEq, Eq, Structural)]
pub enum BackendErrorKind {
    /// The requested resource does not exist.
    NotFound,
    /// The request conflicts with the resource's current state.
    Conflict,
    /// The backend failed for reasons the caller cannot fix.
    Internal,
}

/// A transport-neutral public error: its kind, a stable machine-readable code,
/// and a human-readable message.
#[derive(Clone, Debug, PartialEq, Eq)]
pub struct BackendError {
    pub kind: BackendErrorKind,
    pub code: String,
    pub message: String,
}

impl BackendError {
    /// Builds one public error.
    pub fn new(kind: BackendErrorKind, code: String, message: String) -> (error: BackendError)
        ensures
            error == (BackendError { kind, code, message }),
    {
        BackendError { kind, code, message }
    }
}

/// Whether a public error has the given kind, code, and message.
pub open spec fn backend_error_is(error: BackendError, kind: BackendErrorKind, code: Seq<char>, message: Seq<char>) -> bool {
    &&& error.kind == kind
    &&& error.code@ == code
    &&& error.message@ == message
}

} // verus!
