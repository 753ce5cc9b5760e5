//! The error type of the library.

use vstd::prelude::*;

verus! {

/// `reqwest::Error`, carried through unchanged.
#[verifier::external_type_specification]
#[verifier::external_body]
pub struct ExHttpError(reqwest::Error);

/// `serde_json::Error`, carried through unchanged.
#[verifier::external_type_specification]
#[verifier::external_body]
pub struct ExJsonError(serde_json::Error);

/// Everything that can go wrong in a MOSS operation.
#[derive(Debug)]
pub enum MossError {
    /// The operation needs an API key and the client has none.
    NoApiKey,
    /// An envelope could not be produced or read.
    InvalidEnvelope,
    /// Verification failed, with a reason.
    VerificationFailed(String),
    /// The HTTP exchange failed.
    HttpError(reqwest::Error),
    /// A JSON value could not be encoded or decoded.
    JsonError(serde_json::Error),
    /// The API answered with a non-success status; the text names the status
    /// and carries the response body.
    ApiError(String),
}

} // verus!
