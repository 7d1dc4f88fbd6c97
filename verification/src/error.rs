//! Error handling.
//!
//! Every fallible entry point of the crate returns an [`Error`] carrying an
//! [`ErrorKind`] that tells which stage of the pipeline refused the input,
//! and a human-readable message.

use vstd::prelude::*;

verus! {

/// The category of a failure.
#[derive(Clone, Copy, PartialEq, Eq, Structural, Debug)]
pub enum ErrorKind {
    /// Malformed descriptor text or malformed SQL.
    Parse,
    /// Schema or field resolution failure inside relation construction.
    Type,
    /// A required named parameter (such as "epsilon") was absent.
    MissingKey,
    /// The privacy unit could not be bound to the query.
    PrivacyUnit,
    /// The privacy budget was out of range or an aggregate was unbounded.
    Budget,
    /// A dialect could not render or serialize a canonical operator.
    Translation,
}

/// An error returned by the engine: a category and a message.
#[derive(Clone, Debug)]
pub struct Error {
    pub kind: ErrorKind,
    pub message: String,
}

impl Error {
    pub fn new(kind: ErrorKind, message: String) -> (r: Error)
        ensures
            r.kind == kind,
            r.message == message,
    {
        Error { kind, message }
    }

    /// The category of this error.
    pub fn kind(&self) -> (r: ErrorKind)
        ensures
            r == self.kind,
    {
        self.kind
    }

    /// The human-readable message of this error.
    pub fn message(&self) -> (r: String)
        ensures
            r == self.message,
    {
        self.message.clone()
    }
}

/// Absence of a required named parameter, such as the "epsilon" or "delta"
/// entry of a privacy budget.  Holds the name of the missing key; an `Error`
/// made from it carries that bare key name as its message.
#[derive(Clone, Debug)]
pub struct MissingKeyError(pub String);

impl From<MissingKeyError> for Error {
    fn from(err: MissingKeyError) -> Error {
        Error { kind: ErrorKind::MissingKey, message: err.0 }
    }
}

impl vstd::std_specs::convert::FromSpecImpl<MissingKeyError> for Error {
    open spec fn obeys_from_spec() -> bool {
        true
    }

    open spec fn from_spec(t: MissingKeyError) -> Error {
        Error { kind: ErrorKind::MissingKey, message: t.0 }
    }
}

} // verus!
