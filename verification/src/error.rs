//! The two disjoint failure taxonomies: a failure the server reported in a
//! well-formed error body, and everything else.

use vstd::prelude::*;

verus! {

/// Server-reported failure body. Every non-success response, across all
/// operations, is expected to carry this shape.
#[derive(Debug)]
pub struct ErrorResponse {
    pub error: String,
    pub detail: Option<String>,
    pub exception: Option<String>,
}

/// Failure of one operation: either a failure the server reported in a
/// well-formed error body, or a generic fault — transport failure, a body
/// that does not parse as its declared shape, or a missing required header —
/// described by a message. The two are never conflated.
#[derive(Debug)]
pub enum ArcadeDBError<T> {
    /// The server answered with a non-success status and a well-formed
    /// error body.
    Error(T),
    /// Anything else; not guaranteed to carry structured detail.
    Generic(String),
}

impl From<ErrorResponse> for ArcadeDBError<ErrorResponse> {
    fn from(err: ErrorResponse) -> Self {
        ArcadeDBError::Error(err)
    }
}

impl vstd::std_specs::convert::FromSpecImpl<ErrorResponse> for ArcadeDBError<ErrorResponse> {
    open spec fn obeys_from_spec() -> bool {
        true
    }

    open spec fn from_spec(err: ErrorResponse) -> Self {
        ArcadeDBError::Error(err)
    }
}

} // verus!
