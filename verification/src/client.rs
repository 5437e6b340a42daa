//! The REST client: configuration (base URL, default timeout, default
//! headers, optional authentication capability) and the preparation of one
//! request per HTTP verb. The prepared request carries everything the
//! transport collaborator needs for the network round-trip.

use vstd::prelude::*;
use vstd::seq_lib::*;
use vstd::string::StringExecFns;

use crate::auth::Authentication;
use crate::codec::to_json;
use crate::errors::{
    RestClientError, TransportFailure, INVALID_URL_CODE, spec_invalid_url_msgid,
};
use crate::headers::{append_pairs, clone_pairs, lemma_pairs_view_push, pairs_view};
use crate::urls::{
    lemma_strip_trailing_slashes, parse_url_check, spec_strip_trailing_slashes, spec_url_ok,
    strip_trailing_slashes,
};

verus! {

/// The HTTP verb of a request.
#[derive(Clone, Copy, PartialEq, Eq, Structural, Debug)]
pub enum Method {
    Get,
    Post,
    Put,
    Delete,
}

/// The default per-request timeout, in seconds, of a freshly built client.
pub const DEFAULT_TIMEOUT: u64 = 10;

/// The default header set of a freshly built client: a user-agent naming
/// this client and its version, and JSON content-type and accept headers.
pub open spec fn spec_default_headers() -> Seq<(Seq<char>, Seq<char>)> {
    seq![
        ("User-Agent"@, "rest_client/0.1.0"@),
        ("Content-Type"@, "application/json"@),
        ("Accept"@, "application/json"@),
    ]
}

/// An outgoing request, fully assembled: everything the transport
/// collaborator needs for one round-trip.
pub struct PreparedRequest {
    /// The HTTP verb.
    pub method: Method,
    /// The full URL: the client's base URL with the path appended.
    pub url: String,
    /// Query parameters, to be URL-encoded by the transport collaborator.
    pub params: Vec<(String, String)>,
    /// The headers of the request: the client's defaults, then the caller's
    /// overrides, then the authentication capability's contribution.
    pub headers: Vec<(String, String)>,
    /// The JSON-encoded request body, if any.
    pub body: Option<String>,
    /// The timeout, in seconds, for this request.
    pub timeout: u64,
}

/// The client configuration: immutable after construction except through the
/// builder-style setters, which consume the client and return the updated one.
pub struct RestClient {
    /// The base URL, absolute, with trailing slashes stripped.
    pub url_root: String,
    /// The default timeout, in seconds.
    pub timeout: u64,
    /// The default headers, ordered, duplicates allowed.
    pub headers: Vec<(String, String)>,
    /// The active authentication capability, if any.
    pub auth: Option<Box<dyn Authentication>>,
}

/// The view of an optional pair list: its pairs, or nothing.
pub open spec fn spec_opt_pairs(p: Option<Vec<(String, String)>>) -> Seq<(Seq<char>, Seq<char>)> {
    match p {
        Some(v) => pairs_view(v@),
        None => Seq::empty(),
    }
}

/// The view of an optional single header.
pub open spec fn spec_opt_header(h: Option<(String, String)>) -> Seq<(Seq<char>, Seq<char>)> {
    match h {
        Some(p) => seq![(p.0@, p.1@)],
        None => Seq::empty(),
    }
}

/// The timeout a request uses: the caller's override if supplied, the
/// client's default otherwise.
pub open spec fn spec_effective_timeout(t: Option<u64>, default: u64) -> u64 {
    match t {
        Some(v) => v,
        None => default,
    }
}

/// What every prepared request satisfies: the verb, the resolved URL, the
/// caller's query parameters, the effective timeout, the presence of a body,
/// and the header layout — the client's defaults followed by the caller's
/// overrides, then at most one header contributed by the authentication
/// capability (none when no capability is set).
pub open spec fn spec_prepared(
    c: RestClient,
    method: Method,
    path: Seq<char>,
    params: Seq<(Seq<char>, Seq<char>)>,
    overrides: Seq<(Seq<char>, Seq<char>)>,
    timeout: Option<u64>,
    has_body: bool,
    req: PreparedRequest,
) -> bool {
    &&& req.method == method
    &&& req.url@ == c.url_root@ + path
    &&& pairs_view(req.params@) == params
    &&& (req.body is Some <==> has_body)
    &&& req.timeout == spec_effective_timeout(timeout, c.timeout)
    &&& (pairs_view(c.headers@) + overrides).is_prefix_of(pairs_view(req.headers@))
    &&& pairs_view(req.headers@).len() <= (pairs_view(c.headers@) + overrides).len() + 1
    &&& (c.auth is None ==> pairs_view(req.headers@) == pairs_view(c.headers@) + overrides)
}

impl RestClient {
    /// The configuration invariant: the base URL is a valid absolute URL and
    /// carries no trailing slash. Construction establishes it; the setters
    /// preserve it.
    pub open spec fn wf(self) -> bool {
        &&& spec_url_ok(self.url_root@)
        &&& self.url_root@.len() > 0 ==> self.url_root@.last() != '/'
    }

    /// Builds a client from a base URL string. Trailing slashes are stripped
    /// first; if what remains is not a valid absolute URL, construction fails
    /// with the transport collaborator's invalid-URL error and no client is
    /// produced. The client starts with the default timeout, the default
    /// headers and no authentication capability.
    pub fn new(url_root: &str) -> (r: Result<RestClient, RestClientError>)
        ensures
            r is Ok <==> spec_url_ok(spec_strip_trailing_slashes(url_root@)),
            r matches Ok(c) ==> {
                &&& c.wf()
                &&& c.url_root@ == spec_strip_trailing_slashes(url_root@)
                &&& c.timeout == DEFAULT_TIMEOUT
                &&& pairs_view(c.headers@) == spec_default_headers()
                &&& c.auth is None
            },
            r matches Err(e) ==> e matches RestClientError::TransportError(t) && t.code
                == INVALID_URL_CODE && t.msgid@ == spec_invalid_url_msgid() && t.extra is None,
    {
        let stripped = strip_trailing_slashes(url_root);
        match parse_url_check(stripped) {
            Ok(_) => {
                let mut headers: Vec<(String, String)> = Vec::new();
                headers.push(
                    (String::from_str("User-Agent"), String::from_str("rest_client/0.1.0")),
                );
                headers.push(
                    (String::from_str("Content-Type"), String::from_str("application/json")),
                );
                headers.push((String::from_str("Accept"), String::from_str("application/json")));
                proof {
                    assert(pairs_view(headers@) =~= spec_default_headers());
                    lemma_strip_trailing_slashes(url_root@);
                }
                Ok(
                    RestClient {
                        url_root: stripped.to_owned(),
                        timeout: DEFAULT_TIMEOUT,
                        headers,
                        auth: None,
                    },
                )
            },
            Err(m) => Err(
                RestClientError::TransportError(
                    TransportFailure {
                        code: INVALID_URL_CODE,
                        msgid: String::from_str("Err-27071"),
                        message: m,
                        extra: None,
                    },
                ),
            ),
        }
    }

    /// Replaces the stored default timeout.
    pub fn set_timeout(self, timeout: u64) -> (r: RestClient)
        ensures
            r.timeout == timeout,
            r.url_root == self.url_root,
            r.headers == self.headers,
            r.auth == self.auth,
            self.wf() ==> r.wf(),
    {
        let mut c = self;
        c.timeout = timeout;
        c
    }

    /// Appends additional default headers; nothing is deduplicated.
    pub fn set_headers(self, headers: Vec<(String, String)>) -> (r: RestClient)
        ensures
            pairs_view(r.headers@) == pairs_view(self.headers@) + pairs_view(headers@),
            r.timeout == self.timeout,
            r.url_root == self.url_root,
            r.auth == self.auth,
            self.wf() ==> r.wf(),
    {
        let mut c = self;
        append_pairs(&mut c.headers, &headers);
        c
    }

    /// Stores an authentication capability, replacing any prior one.
    pub fn set_auth<A: Authentication + 'static>(self, auth: A) -> (r: RestClient)
        ensures
            r.auth is Some,
            r.timeout == self.timeout,
            r.url_root == self.url_root,
            r.headers == self.headers,
            self.wf() ==> r.wf(),
    {
        let mut c = self;
        c.auth = Some(Box::new(auth));
        c
    }

    /// The base URL, trailing slashes stripped.
    pub fn url_root(&self) -> (r: &str)
        ensures
            r@ == self.url_root@,
    {
        self.url_root.as_str()
    }

    /// The default timeout, in seconds.
    pub fn timeout(&self) -> (r: u64)
        ensures
            r == self.timeout,
    {
        self.timeout
    }

    /// The default header list.
    pub fn headers(&self) -> (r: &Vec<(String, String)>)
        ensures
            r == &self.headers,
    {
        &self.headers
    }

    /// The active authentication capability, if any.
    pub fn auth(&self) -> (r: Option<&Box<dyn Authentication>>)
        ensures
            r is Some <==> self.auth is Some,
    {
        self.auth.as_ref()
    }

    /// Invokes the authentication capability, if one is set, for its
    /// contribution to an outgoing request.
    pub fn invoke_auth(&self) -> (r: Option<(String, String)>)
        ensures
            self.auth is None ==> r is None,
    {
        match &self.auth {
            Some(a) => a.as_header(),
            None => None,
        }
    }

    /// Assembles a request from the client's configuration, the caller's
    /// per-request overrides, an already-encoded body and an authentication
    /// contribution. Every piece of the result is pinned down: the URL is the
    /// base URL with the path appended, the headers are the defaults, then
    /// the overrides, then the contribution, the timeout is the override if
    /// supplied and the default otherwise, and body and parameters are taken
    /// as given.
    pub fn build_request(
        &self,
        method: Method,
        path: &str,
        params: Option<Vec<(String, String)>>,
        body: Option<String>,
        headers: Option<Vec<(String, String)>>,
        timeout: Option<u64>,
        auth_header: Option<(String, String)>,
    ) -> (r: PreparedRequest)
        ensures
            r.method == method,
            r.url@ == self.url_root@ + path@,
            pairs_view(r.params@) == spec_opt_pairs(params),
            pairs_view(r.headers@) == pairs_view(self.headers@) + spec_opt_pairs(headers)
                + spec_opt_header(auth_header),
            r.body == body,
            r.timeout == spec_effective_timeout(timeout, self.timeout),
    {
        let url = self.url_root.clone().concat(path);
        let params_list = match params {
            Some(v) => v,
            None => {
                let empty: Vec<(String, String)> = Vec::new();
                proof {
                    assert(pairs_view(empty@) =~= Seq::<(Seq<char>, Seq<char>)>::empty());
                }
                empty
            },
        };
        let mut hs = clone_pairs(&self.headers);
        match &headers {
            Some(o) => append_pairs(&mut hs, o),
            None => {
                proof {
                    assert(pairs_view(hs@) + Seq::<(Seq<char>, Seq<char>)>::empty() =~= pairs_view(
                        hs@,
                    ));
                }
            },
        }
        let ghost merged = pairs_view(hs@);
        match auth_header {
            Some(p) => {
                let ghost prev = hs@;
                hs.push(p);
                proof {
                    lemma_pairs_view_push(prev, p);
                    assert(pairs_view(hs@) =~= merged + seq![(p.0@, p.1@)]);
                }
            },
            None => {
                proof {
                    assert(pairs_view(hs@) + Seq::<(Seq<char>, Seq<char>)>::empty() =~= pairs_view(
                        hs@,
                    ));
                }
            },
        }
        let t = match timeout {
            Some(v) => v,
            None => self.timeout,
        };
        PreparedRequest { method, url, params: params_list, headers: hs, body, timeout: t }
    }

    /// Prepares a GET request: no body, so preparation cannot fail.
    pub fn prepare_get(
        &self,
        path: &str,
        params: Option<Vec<(String, String)>>,
        headers: Option<Vec<(String, String)>>,
        timeout: Option<u64>,
    ) -> (r: PreparedRequest)
        ensures
            spec_prepared(
                *self,
                Method::Get,
                path@,
                spec_opt_pairs(params),
                spec_opt_pairs(headers),
                timeout,
                false,
                r,
            ),
    {
        let auth_header = self.invoke_auth();
        let r = self.build_request(Method::Get, path, params, None, headers, timeout, auth_header);
        proof {
            lemma_prefix_with_opt_header(
                pairs_view(self.headers@) + spec_opt_pairs(headers),
                spec_opt_header(auth_header),
                pairs_view(r.headers@),
            );
        }
        r
    }

    /// Prepares a DELETE request: no body, so preparation cannot fail.
    pub fn prepare_delete(
        &self,
        path: &str,
        params: Option<Vec<(String, String)>>,
        headers: Option<Vec<(String, String)>>,
        timeout: Option<u64>,
    ) -> (r: PreparedRequest)
        ensures
            spec_prepared(
                *self,
                Method::Delete,
                path@,
                spec_opt_pairs(params),
                spec_opt_pairs(headers),
                timeout,
                false,
                r,
            ),
    {
        let auth_header = self.invoke_auth();
        let r = self.build_request(
            Method::Delete,
            path,
            params,
            None,
            headers,
            timeout,
            auth_header,
        );
        proof {
            lemma_prefix_with_opt_header(
                pairs_view(self.headers@) + spec_opt_pairs(headers),
                spec_opt_header(auth_header),
                pairs_view(r.headers@),
            );
        }
        r
    }

    /// Prepares a POST request. A body that cannot be serialized to JSON
    /// fails with a `SerializationError` before any transport activity; with
    /// no body, preparation always succeeds.
    pub fn prepare_post<D: serde::Serialize>(
        &self,
        path: &str,
        params: Option<Vec<(String, String)>>,
        data: Option<D>,
        headers: Option<Vec<(String, String)>>,
        timeout: Option<u64>,
    ) -> (r: Result<PreparedRequest, RestClientError>)
        ensures
            data is None ==> r is Ok,
            r matches Err(e) ==> e matches RestClientError::SerializationError(_) && data is Some,
            r matches Ok(req) ==> spec_prepared(
                *self,
                Method::Post,
                path@,
                spec_opt_pairs(params),
                spec_opt_pairs(headers),
                timeout,
                data is Some,
                req,
            ),
    {
        self.prepare_with_body(Method::Post, path, params, data, headers, timeout)
    }

    /// Prepares a PUT request, exactly as `prepare_post` does.
    pub fn prepare_put<D: serde::Serialize>(
        &self,
        path: &str,
        params: Option<Vec<(String, String)>>,
        data: Option<D>,
        headers: Option<Vec<(String, String)>>,
        timeout: Option<u64>,
    ) -> (r: Result<PreparedRequest, RestClientError>)
        ensures
            data is None ==> r is Ok,
            r matches Err(e) ==> e matches RestClientError::SerializationError(_) && data is Some,
            r matches Ok(req) ==> spec_prepared(
                *self,
                Method::Put,
                path@,
                spec_opt_pairs(params),
                spec_opt_pairs(headers),
                timeout,
                data is Some,
                req,
            ),
    {
        self.prepare_with_body(Method::Put, path, params, data, headers, timeout)
    }

    /// Prepares a request that may carry a body: the body is JSON-encoded
    /// first, and an encoding failure surfaces before anything else happens.
    fn prepare_with_body<D: serde::Serialize>(
        &self,
        method: Method,
        path: &str,
        params: Option<Vec<(String, String)>>,
        data: Option<D>,
        headers: Option<Vec<(String, String)>>,
        timeout: Option<u64>,
    ) -> (r: Result<PreparedRequest, RestClientError>)
        ensures
            data is None ==> r is Ok,
            r matches Err(e) ==> e matches RestClientError::SerializationError(_) && data is Some,
            r matches Ok(req) ==> spec_prepared(
                *self,
                method,
                path@,
                spec_opt_pairs(params),
                spec_opt_pairs(headers),
                timeout,
                data is Some,
                req,
            ),
    {
        let body = match &data {
            Some(d) => match to_json(d) {
                Ok(s) => Some(s),
                Err(m) => {
                    return Err(RestClientError::SerializationError(m));
                },
            },
            None => None,
        };
        let auth_header = self.invoke_auth();
        let req = self.build_request(method, path, params, body, headers, timeout, auth_header);
        proof {
            lemma_prefix_with_opt_header(
                pairs_view(self.headers@) + spec_opt_pairs(headers),
                spec_opt_header(auth_header),
                pairs_view(req.headers@),
            );
        }
        Ok(req)
    }
}

/// A sequence extended by at most one element keeps its base as a prefix
/// and grows by at most one.
proof fn lemma_prefix_with_opt_header(
    base: Seq<(Seq<char>, Seq<char>)>,
    tail: Seq<(Seq<char>, Seq<char>)>,
    whole: Seq<(Seq<char>, Seq<char>)>,
)
    requires
        whole == base + tail,
        tail.len() <= 1,
    ensures
        base.is_prefix_of(whole),
        whole.len() <= base.len() + 1,
        tail.len() == 0 ==> whole == base,
{
    assert(whole.subrange(0, base.len() as int) =~= base);
    if tail.len() == 0 {
        assert(whole =~= base);
    }
}

} // verus!
