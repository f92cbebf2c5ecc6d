//! The decision core of the transport boundary. The HTTP round trip itself
//! — sending bytes, reading a status, headers and a body — happens outside
//! this library; what stands here classifies each outcome, so that a
//! server-reported failure and a generic fault are never conflated.

use vstd::prelude::*;
use crate::error::{ArcadeDBError, ErrorResponse};

verus! {

/// A successful call's envelope: the typed payload and every response
/// header, case as received.
#[derive(Debug)]
pub struct ArcadeResponse<T> {
    pub payload: T,
    pub metadata: Vec<(String, String)>,
}

impl<T> ArcadeResponse<T> {
    pub fn new(payload: T, headers: Vec<(String, String)>) -> (r: Self)
        ensures
            r.payload == payload,
            r.metadata == headers,
    {
        Self { payload, metadata: headers }
    }
}

/// One of two alternatives.
pub enum Either<L, R> {
    Left(L),
    Right(R),
}

impl<L, R> Either<L, R> {
    /// The left alternative as success, the right as failure.
    pub fn into_result(self) -> (r: Result<L, R>)
        ensures
            match self {
                Either::Left(l) => r == Ok::<L, R>(l),
                Either::Right(e) => r == Err::<L, R>(e),
            },
    {
        match self {
            Either::Left(l) => Ok(l),
            Either::Right(r) => Err(r),
        }
    }
}

/// Whether an HTTP status code reports success: any status in the 2xx
/// class.
pub fn status_is_success(status: u16) -> (r: bool)
    ensures
        r == (200 <= status < 300),
{
    200 <= status && status < 300
}

/// Conclude a call whose status reported success: a body that parsed as the
/// operation's declared success shape yields the envelope; a body that did
/// not is a generic failure, never a server-reported one.
pub fn classify_success_body<T>(payload: Option<T>, headers: Vec<(String, String)>) -> (r: Result<
    ArcadeResponse<T>,
    ArcadeDBError<ErrorResponse>,
>)
    ensures
        match payload {
            Some(p) => r matches Ok(resp) && resp.payload == p && resp.metadata == headers,
            None => r matches Err(e) && e matches ArcadeDBError::Generic(m)
                && m@ == "response body did not match the expected shape"@,
        },
{
    match payload {
        Some(p) => Ok(ArcadeResponse::new(p, headers)),
        None => Err(
            ArcadeDBError::Generic(
                String::from_str("response body did not match the expected shape"),
            ),
        ),
    }
}

/// Conclude a call whose status reported failure: a body that parsed as the
/// canonical error shape is the server-reported failure; a body that did
/// not is a generic (protocol-violation) failure.
pub fn classify_error_body(error: Option<ErrorResponse>) -> (r: ArcadeDBError<ErrorResponse>)
    ensures
        match error {
            Some(e) => r == ArcadeDBError::<ErrorResponse>::Error(e),
            None => r matches ArcadeDBError::Generic(m)
                && m@ == "error body did not match the expected shape"@,
        },
{
    match error {
        Some(e) => ArcadeDBError::Error(e),
        None => ArcadeDBError::Generic(
            String::from_str("error body did not match the expected shape"),
        ),
    }
}

/// The absolute URL of an operation: the configured base URL, then the
/// operation's path.
pub fn full_url(base: &str, path: &str) -> (r: String)
    ensures
        r@ == base@ + path@,
{
    String::from_str(base).concat(path)
}

} // verus!
