//! What can go wrong in a lookup.
use crate::op::Query;
use vstd::prelude::*;

verus! {

/// What went wrong in an exchange with a name server.
#[derive(Debug, PartialEq, Eq)]
pub enum ProtoErrorKind {
    /// The server answered, and the answer holds no record for the query. `negative_ttl` says for
    /// how many seconds that may be relied on.
    NoRecordsFound { query: Box<Query>, negative_ttl: Option<u32> },
    /// The exchange itself failed.
    Io,
}

/// What went wrong in a lookup.
#[derive(Debug, PartialEq, Eq)]
pub enum ResolveError {
    /// The lookup could not be attempted.
    Message(&'static str),
    /// The exchange with a name server failed.
    Proto(ProtoErrorKind),
}

impl ResolveError {
    /// The failure of the exchange with a name server, if it is one.
    pub fn proto(&self) -> (kind: Option<&ProtoErrorKind>)
        ensures
            *self matches ResolveError::Proto(k) ==> kind == Some(&k),
            *self is Message ==> kind is None,
    {
        match self {
            ResolveError::Proto(kind) => Some(kind),
            ResolveError::Message(_) => None,
        }
    }
}

} // verus!
