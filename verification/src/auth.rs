//! The authentication capability: a pluggable strategy, invoked at request
//! time, that contributes a header to the outgoing request. At most one
//! strategy is active per client; setting another replaces it.

use vstd::prelude::*;

verus! {

/// A strategy that computes per-request credentials. Implementations return
/// the header they contribute, as a name/value pair, or nothing.
pub trait Authentication {
    fn as_header(&self) -> Option<(String, String)>;
}

/// The absence of authentication: contributes nothing.
pub struct NoAuth;

impl Authentication for NoAuth {
    fn as_header(&self) -> Option<(String, String)> {
        None
    }
}

} // verus!
