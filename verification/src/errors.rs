//! The error taxonomy: transport-layer failures and serialization failures,
//! unified behind one enum with a uniform code / message / msgid / extra
//! reporting surface.
//!
//! The numeric codes and message identifiers follow the error registry of the
//! `cdumay_error` crate, which the transport collaborator
//! (`cdumay_http_client`) uses to classify its failures.

use vstd::prelude::*;
use vstd::string::StringExecFns;

verus! {

/// `serde_json::Value` is carried through opaquely: structured context
/// attached to a transport failure is stored and handed back, never read.
#[verifier::external_type_specification]
#[verifier::external_body]
pub struct ExJsonValue(serde_json::Value);

/// Numeric code of the generic serialization-error kind
/// (`cdumay_error::GenericErrors::SERIALIZATION_ERROR`).
pub const SERIALIZATION_ERROR_CODE: u16 = 500;

/// Numeric code the transport collaborator assigns to an invalid URL
/// (`cdumay_http_client::HttpStatusCodeErrors::INVALID_URL`).
pub const INVALID_URL_CODE: u16 = 400;

/// Message identifier of the generic serialization-error kind.
pub open spec fn spec_serialization_msgid() -> Seq<char> {
    "Err-31807"@
}

/// Message identifier of the invalid-URL kind.
pub open spec fn spec_invalid_url_msgid() -> Seq<char> {
    "Err-27071"@
}

/// A transport-layer failure as classified by the transport collaborator:
/// a numeric code, a stable message identifier, a human-readable message and
/// optional structured context.
#[derive(Debug)]
pub struct TransportFailure {
    pub code: u16,
    pub msgid: String,
    pub message: String,
    pub extra: Option<Vec<(String, serde_json::Value)>>,
}

/// Either a wrapped transport-layer failure or a JSON encode/decode failure
/// (the payload of the latter is the underlying diagnostic text).
#[derive(Debug)]
pub enum RestClientError {
    TransportError(TransportFailure),
    SerializationError(String),
}

/// The numeric code a given error reports.
pub open spec fn spec_code(e: RestClientError) -> u16 {
    match e {
        RestClientError::TransportError(t) => t.code,
        RestClientError::SerializationError(_) => SERIALIZATION_ERROR_CODE,
    }
}

/// The message identifier a given error reports.
pub open spec fn spec_msgid(e: RestClientError) -> Seq<char> {
    match e {
        RestClientError::TransportError(t) => t.msgid@,
        RestClientError::SerializationError(_) => spec_serialization_msgid(),
    }
}

/// The human-readable message a given error reports.
pub open spec fn spec_message(e: RestClientError) -> Seq<char> {
    match e {
        RestClientError::TransportError(t) => t.message@,
        RestClientError::SerializationError(m) => m@,
    }
}

impl RestClientError {
    /// Numeric code: the transport collaborator's code for a transport
    /// failure, the fixed serialization-error code otherwise.
    pub fn code(&self) -> (c: u16)
        ensures
            c == spec_code(*self),
    {
        match self {
            RestClientError::TransportError(t) => t.code,
            RestClientError::SerializationError(_) => SERIALIZATION_ERROR_CODE,
        }
    }

    /// Stable message identifier: the transport collaborator's identifier for
    /// a transport failure, the fixed serialization-error identifier otherwise.
    pub fn msgid(&self) -> (m: String)
        ensures
            m@ == spec_msgid(*self),
    {
        match self {
            RestClientError::TransportError(t) => t.msgid.clone(),
            RestClientError::SerializationError(_) => String::from_str("Err-31807"),
        }
    }

    /// Human-readable message: the transport collaborator's message for a
    /// transport failure, the encode/decode diagnostic otherwise.
    pub fn message(&self) -> (m: String)
        ensures
            m@ == spec_message(*self),
    {
        match self {
            RestClientError::TransportError(t) => t.message.clone(),
            RestClientError::SerializationError(m) => m.clone(),
        }
    }

    /// Structured context: whatever the transport collaborator attached for a
    /// transport failure, always absent for a serialization failure.
    pub fn extra(&self) -> (r: Option<&Vec<(String, serde_json::Value)>>)
        ensures
            match *self {
                RestClientError::TransportError(t) => match r {
                    Some(v) => t.extra == Some(*v),
                    None => t.extra is None,
                },
                RestClientError::SerializationError(_) => r is None,
            },
    {
        match self {
            RestClientError::TransportError(t) => t.extra.as_ref(),
            RestClientError::SerializationError(_) => None,
        }
    }

    /// Rendering of the error as `"<msgid>: <message>"`.
    pub fn to_display_string(&self) -> (r: String)
        ensures
            r@ == spec_msgid(*self) + ": "@ + spec_message(*self),
    {
        let m = self.msgid();
        let m = m.concat(": ");
        m.concat(self.message().as_str())
    }
}

impl From<TransportFailure> for RestClientError {
    /// Implicit wrapping of a transport-layer failure.
    fn from(t: TransportFailure) -> (r: RestClientError) {
        RestClientError::TransportError(t)
    }
}

impl vstd::std_specs::convert::FromSpecImpl<TransportFailure> for RestClientError {
    open spec fn obeys_from_spec() -> bool {
        true
    }

    open spec fn from_spec(t: TransportFailure) -> RestClientError {
        RestClientError::TransportError(t)
    }
}

} // verus!
