use vstd::prelude::*;

verus! {

/// The kinds of failure that a service operation reports.
#[derive(Clone, Copy, Debug, PartialEq, Eq, Structural)]
pub enum ErrorKind {
    /// The service manager or its registry could not be reached.
    ResourceUnavailable,
    /// The service is not registered.
    NotFound,
    /// The service is registered already.
    AlreadyExists,
    /// A pending state was not left within the polling budget.
    OperationTimeout,
    /// A helper command exited with a failure status.
    ExternalProcessFailure,
    /// A descriptor file could not be written or read.
    IOFailure,
    /// Any other failure.
    Other,
}

/// A failed service operation: its kind and a human-readable message.
#[derive(Clone, Debug)]
pub struct Error {
    pub kind: ErrorKind,
    pub message: String,
}

impl Error {
    /// An error of kind `Other` that carries `message`.
    pub fn new(message: &str) -> (r: Error)
        ensures
            r.kind == ErrorKind::Other,
            r.message@ == message@,
    {
        Error { kind: ErrorKind::Other, message: String::from_str(message) }
    }

    /// An error of the given kind that carries `message`.
    pub fn with_kind(kind: ErrorKind, message: String) -> (r: Error)
        ensures
            r.kind == kind,
            r.message@ == message@,
    {
        Error { kind, message }
    }

    /// The message of the error.
    pub fn message(&self) -> (r: &str)
        ensures
            r@ == self.message@,
    {
        self.message.as_str()
    }
}

} // verus!
