//! JSON marshalling at the request and response boundary, delegated to the
//! serialization collaborator (serde_json), and the interpretation of a
//! transport outcome as a typed result or a `RestClientError`.

use vstd::prelude::*;

use crate::errors::{RestClientError, TransportFailure};

verus! {

/// Relies on serde_json::to_string: encodes `data` as JSON text; on failure
/// the encoder's diagnostic text is returned instead. Whether encoding
/// succeeds depends on `D`'s serialization, so nothing is promised here.
#[verifier::external_body]
pub(crate) fn to_json<D: serde::Serialize>(data: &D) -> (r: Result<String, String>) {
    match serde_json::to_string(data) {
        Ok(s) => Ok(s),
        Err(e) => Err(e.to_string()),
    }
}

/// Relies on serde_json::from_str: decodes JSON text into `R`; on failure the
/// decoder's diagnostic text is returned instead. Whether decoding succeeds
/// depends on `R`'s deserialization, so nothing is promised here.
#[verifier::external_body]
pub(crate) fn from_json<R: serde::de::DeserializeOwned>(text: &str) -> (r: Result<R, String>) {
    match serde_json::from_str(text) {
        Ok(v) => Ok(v),
        Err(e) => Err(e.to_string()),
    }
}

/// Decodes a raw response body into the requested result type. A body that is
/// not valid JSON for `R` yields a `SerializationError` carrying the decoder's
/// diagnostic.
pub fn decode_response<R: serde::de::DeserializeOwned>(body: &str) -> (r: Result<
    R,
    RestClientError,
>)
    ensures
        r matches Err(e) ==> e matches RestClientError::SerializationError(_),
{
    match from_json(body) {
        Ok(v) => Ok(v),
        Err(m) => Err(RestClientError::SerializationError(m)),
    }
}

/// Interprets a transport outcome: a transport failure is wrapped unchanged,
/// code and message included, as a `TransportError`; a successful raw
/// response body is decoded as JSON into the requested result type.
pub fn interpret_transport_result<R: serde::de::DeserializeOwned>(
    outcome: Result<String, TransportFailure>,
) -> (r: Result<R, RestClientError>)
    ensures
        outcome matches Err(t) ==> r matches Err(e) && e == RestClientError::TransportError(t),
        outcome matches Ok(_) ==> (r matches Err(e) ==> e matches RestClientError::SerializationError(
            _,
        )),
{
    match outcome {
        Ok(body) => decode_response(body.as_str()),
        Err(t) => Err(RestClientError::TransportError(t)),
    }
}

} // verus!
