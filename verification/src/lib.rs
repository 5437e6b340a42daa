//! A minimal REST client library: configuration of a base URL, default
//! headers, timeout and an optional authentication capability, together with
//! request preparation and response interpretation for the four usual HTTP
//! verbs. The network round-trip itself is left to the embedding application
//! and its transport collaborator.

mod auth;
mod client;
mod codec;
mod errors;
mod headers;
mod urls;

pub use auth::{Authentication, NoAuth};
pub use client::{
    Method, PreparedRequest, RestClient, DEFAULT_TIMEOUT, spec_default_headers,
    spec_effective_timeout, spec_opt_header, spec_opt_pairs, spec_prepared,
};
pub use codec::{decode_response, interpret_transport_result};
pub use errors::{
    RestClientError, TransportFailure, INVALID_URL_CODE, SERIALIZATION_ERROR_CODE, spec_code,
    spec_invalid_url_msgid, spec_message, spec_msgid, spec_serialization_msgid,
};
pub use headers::{
    clone_pairs, append_pairs, lemma_lookup_after_append_one, lemma_merge_last_wins,
    lemma_pairs_view_push, lookup_header, pairs_view, spec_lookup,
};
pub use urls::{
    lemma_strip_trailing_slashes, spec_strip_trailing_slashes, spec_url_ok,
    strip_trailing_slashes,
};
