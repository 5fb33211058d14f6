//! Request rewriting.
//!
//! A proxied request keeps its path and query but is re-targeted at the
//! fixed upstream base: the outbound request URI is
//! `base + path` when the request has no query, and
//! `base + path + "?" + query` when it has one.  The rewritten bytes are
//! then parsed into a `hyper::Uri`; a request whose rewritten target is not
//! a syntactically valid URI is reported, not forwarded.

use vstd::prelude::*;
use vstd::slice::slice_to_vec;
use vstd::string::StringSliceAdditionalSpecFns;
use crate::ProxyError;
use crate::bytes::lit_bytes;
use crate::headers::{Header, sanitize_headers, sanitize_spec};

verus! {

/// The rewritten request target: the upstream base, the original path, and
/// the original query when there is one.
pub open spec fn rewritten_uri(base: Seq<u8>, path: Seq<u8>, query: Option<Seq<u8>>) -> Seq<u8> {
    match query {
        Option::None => base + path,
        Option::Some(q) => base + path + "?".spec_bytes() + q,
    }
}

/// Build the rewritten request target as bytes.
pub fn rewrite_uri_bytes(base: &Vec<u8>, path: &Vec<u8>, query: &Option<Vec<u8>>) -> (r: Vec<u8>)
    ensures
        r@ == rewritten_uri(base@, path@, query.deep_view()),
{
    let mut out = slice_to_vec(base.as_slice());
    let mut p = slice_to_vec(path.as_slice());
    out.append(&mut p);
    match query {
        Option::None => {},
        Option::Some(q) => {
            let mut mark = lit_bytes("?");
            out.append(&mut mark);
            let mut qb = slice_to_vec(q.as_slice());
            out.append(&mut qb);
        },
    }
    out
}

/// `hyper::Uri`, the upstream client's parsed request target, carried
/// opaquely: everything the contracts say is said over the bytes it was
/// parsed from.
#[verifier::external_type_specification]
#[verifier::external_body]
pub struct ExUri(hyper::Uri);

/// `hyper`'s parse error, carried opaquely out of the parser and mapped at
/// once to [`ProxyError::UriConstruction`].
#[verifier::external_type_specification]
#[verifier::external_body]
pub struct ExInvalidUri(hyper::http::uri::InvalidUri);

/// Whether a byte string is a syntactically valid URI, in the sense of
/// `hyper::Uri`'s parser.  The answer depends on the bytes alone.
pub uninterp spec fn uri_parses(s: Seq<u8>) -> bool;

/// Relies on hyper's `Uri::try_from` for byte slices: it parses the bytes
/// into a URI, succeeding exactly on syntactically valid ones, and its
/// answer depends on the bytes alone.
#[verifier::external_body]
fn parse_uri(s: &Vec<u8>) -> (r: Result<hyper::Uri, hyper::http::uri::InvalidUri>)
    ensures
        r is Ok <==> uri_parses(s@),
{
    hyper::Uri::try_from(s.as_slice())
}

/// A request ready to hand to the upstream client: the rewritten target,
/// both parsed and as the bytes it was parsed from, and the sanitized
/// headers.  Method and body are not touched by rewriting and stay with the
/// host's request.
pub struct OutboundRequest {
    pub uri: hyper::Uri,
    pub uri_bytes: Vec<u8>,
    pub headers: Vec<Header>,
}

/// Rewrite a request against the upstream base: build the outbound URI from
/// the path and query and sanitize the headers.  Fails exactly when the
/// rewritten bytes do not form a valid URI.
pub fn build_outbound(
    base: &Vec<u8>,
    path: &Vec<u8>,
    query: &Option<Vec<u8>>,
    headers: &Vec<Header>,
) -> (r: Result<OutboundRequest, ProxyError>)
    ensures
        r is Ok <==> uri_parses(rewritten_uri(base@, path@, query.deep_view())),
        r matches Ok(out) ==> {
            &&& out.uri_bytes@ == rewritten_uri(base@, path@, query.deep_view())
            &&& out.headers.deep_view() == sanitize_spec(headers.deep_view())
        },
        r matches Err(e) ==> e == ProxyError::UriConstruction,
{
    let uri_bytes = rewrite_uri_bytes(base, path, query);
    match parse_uri(&uri_bytes) {
        Ok(uri) => Ok(
            OutboundRequest { uri, uri_bytes, headers: sanitize_headers(headers) },
        ),
        Err(_) => Err(ProxyError::UriConstruction),
    }
}

} // verus!
