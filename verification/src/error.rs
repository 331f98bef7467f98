//! Failure taxonomy of the upload and retrieval pipeline.

use vstd::prelude::*;

verus! {

/// One variant per failure source: transport or backend failures talking to
/// storage, malformed backend responses, and invalid caller input.
/// Retrieval-only outcomes (missing, expired) are reported by the retrieval
/// policy itself, not through this type.
#[derive(Debug)]
pub enum Error {
    /// The storage backend rejected a call or the transport to it failed;
    /// carries the underlying cause for logging.
    Backend(String),
    /// The backend answered, but the response lacked an expected element
    /// (an upload session id, a part integrity token).
    Protocol(String),
    /// The caller handed a value the configuration rejects.
    Validation(String),
}

impl Error {
    /// The human-readable cause carried by the variant.
    pub fn message(&self) -> (r: &str)
        ensures
            r@ == self.message_spec(),
    {
        match self {
            Error::Backend(m) => m.as_str(),
            Error::Protocol(m) => m.as_str(),
            Error::Validation(m) => m.as_str(),
        }
    }

    pub open spec fn message_spec(&self) -> Seq<char> {
        match self {
            Error::Backend(m) => m@,
            Error::Protocol(m) => m@,
            Error::Validation(m) => m@,
        }
    }

    pub fn is_backend(&self) -> (r: bool)
        ensures
            r == (self is Backend),
    {
        matches!(self, Error::Backend(_))
    }

    pub fn is_protocol(&self) -> (r: bool)
        ensures
            r == (self is Protocol),
    {
        matches!(self, Error::Protocol(_))
    }

    pub fn is_validation(&self) -> (r: bool)
        ensures
            r == (self is Validation),
    {
        matches!(self, Error::Validation(_))
    }
}

} // verus!
