use vstd::prelude::*;

verus! {

/// Failures that the service reports to its callers.
#[derive(Clone, Copy, Debug, PartialEq, Eq, Structural)]
pub enum ServiceError {
    /// No program or sheet row matched the request.
    NotFound,
    /// A query, a connection or the decoding of a row failed.
    DatabaseError,
    /// The external batch or feedback source failed.
    SourceUnavailable,
}

} // verus!
