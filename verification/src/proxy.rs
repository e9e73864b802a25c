//! The reverse-proxy façade: builds the upstream request from an inbound
//! one and relays the upstream's JSON body back unchanged.
//!
//! The upstream URL is the configured base, the fixed `/api/` prefix, the
//! forwarded path segment, and the original query string verbatim. The
//! method crosses unchanged; a JSON body is attached only when one came
//! in. Dispatching the request is the caller's I/O; the decisions on both
//! sides of it stand here.

use crate::authz::HttpMethod;
use crate::error::Error;
use vstd::prelude::*;

verus! {

/// Whether the URL parser accepts `s`. Named after the outcome of the
/// HTTP client library's URL parser; it depends on the string alone.
pub uninterp spec fn url_well_formed(s: Seq<char>) -> bool;

/// Relies on `reqwest::Url::parse` (the `url` crate's parser): its outcome
/// is deterministic in the string.
#[verifier::external_body]
fn url_parses(s: &String) -> (r: bool)
    ensures
        r == url_well_formed(s@),
{
    reqwest::Url::parse(s.as_str()).is_ok()
}

/// The view of an optional string.
pub open spec fn opt_view(o: Option<String>) -> Option<Seq<char>> {
    match o {
        Some(s) => Some(s@),
        None => None,
    }
}

/// The upstream URL of a proxied request: base, the `/api/` prefix, the
/// path segment, and the query string verbatim (empty when absent) after
/// `?`.
pub open spec fn proxy_url(base: Seq<char>, path: Seq<char>, query: Option<Seq<char>>) -> Seq<
    char,
> {
    base + "/api/"@ + path + "?"@ + (match query {
        Some(q) => q,
        None => Seq::<char>::empty(),
    })
}

/// An upstream request, ready to dispatch: the forwarded method, the
/// built URL, and the JSON body text when one came in.
pub struct ProxyRequest {
    pub method: HttpMethod,
    pub url: String,
    pub body: Option<String>,
}

/// Builds the upstream request. The URL is validated by the URL parser;
/// one that does not parse is a `BadRequest`, exactly then.
pub fn build_proxy_request(
    base: &String,
    method: HttpMethod,
    path: &String,
    query: Option<String>,
    body: Option<String>,
) -> (r: Result<ProxyRequest, Error>)
    ensures
        r is Ok <==> url_well_formed(proxy_url(base@, path@, opt_view(query))),
        r matches Ok(p) ==> {
            &&& p.method == method
            &&& p.url@ == proxy_url(base@, path@, opt_view(query))
            &&& (match body {
                Some(b) => p.body matches Some(pb) && pb@ == b@,
                None => p.body is None,
            })
        },
        r is Err ==> r == Err::<ProxyRequest, Error>(Error::BadRequest),
{
    let mut url = String::new();
    url.append(base.as_str());
    url.append("/api/");
    url.append(path.as_str());
    url.append("?");
    match &query {
        Some(q) => url.append(q.as_str()),
        None => (),
    }
    assert(url@ =~= proxy_url(base@, path@, opt_view(query)));
    if url_parses(&url) {
        Ok(ProxyRequest { method, url, body })
    } else {
        Err(Error::BadRequest)
    }
}

/// How dispatching the upstream request failed, when it did.
#[derive(Clone, Copy, Debug, PartialEq, Eq, Structural)]
pub enum UpstreamFailure {
    ConnectionFailed,
    InvalidJson,
}

/// Relays the upstream outcome to the caller: a JSON body is returned
/// unchanged; a connection or parse failure surfaces as a generic internal
/// error, never echoed in detail.
pub fn relay_upstream(outcome: Result<String, UpstreamFailure>) -> (r: Result<String, Error>)
    ensures
        match outcome {
            Ok(b) => r matches Ok(rb) && rb@ == b@,
            Err(_) => r == Err::<String, Error>(Error::InternalServerError),
        },
{
    match outcome {
        Ok(body) => Ok(body),
        Err(_) => Err(Error::InternalServerError),
    }
}

} // verus!
