//! The errors of the client.

use vstd::prelude::*;

verus! {

#[verifier::external_type_specification]
#[verifier::external_body]
pub struct ExRequestError(reqwest::Error);

#[verifier::external_type_specification]
#[verifier::external_body]
pub struct ExJsonError(serde_json::Error);

/// What can go wrong when talking to the MVG APIs.
#[derive(Debug)]
pub enum MvgError {
    /// The HTTP request failed, or its body could not be read or decoded.
    RequestError(reqwest::Error),
    /// A JSON document could not be (de)serialised.
    SerializationError(serde_json::Error),
    /// The station identifier is not a global identifier like `de:09162:100`.
    InvalidStationId,
    /// The API answered with a status that is not a success.
    NotFound,
}

} // verus!
