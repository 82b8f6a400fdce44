//! Errors of the command channel.

use vstd::prelude::*;

verus! {

/// What went wrong on the channel.
#[derive(Debug, Copy, Clone, PartialEq, Eq, Structural)]
pub enum ErrorKind {
    /// The reply queue already holds as many words as one transaction carries.
    StorageFull,
}

/// An error of the command channel.
#[derive(Debug, Copy, Clone, PartialEq, Eq, Structural)]
pub struct Error {
    kind: ErrorKind,
}

impl Error {
    pub closed spec fn spec_kind(&self) -> ErrorKind {
        self.kind
    }

    pub fn new(kind: ErrorKind) -> (error: Error)
        ensures
            error.spec_kind() == kind,
    {
        Error { kind }
    }

    #[verifier::when_used_as_spec(spec_kind)]
    pub fn kind(&self) -> (kind: ErrorKind)
        ensures
            kind == self.spec_kind(),
    {
        self.kind
    }
}

} // verus!
