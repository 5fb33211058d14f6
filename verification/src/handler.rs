//! Per-request orchestration.
//!
//! A request for `/status` is answered locally with the counter's textual
//! snapshot; the counter is left alone and nothing is sent upstream.  Every
//! other request is counted as a forwarding attempt — before the outcome of
//! the attempt is known — and then rewritten and sanitized for the upstream
//! client.  The host process performs the actual network call and feeds its
//! outcome back through [`relay`].

use vstd::prelude::*;
use vstd::string::StringSliceAdditionalSpecFns;
use crate::ProxyError;
use crate::bytes::{bytes_eq, lit_bytes};
use crate::headers::Header;
use crate::rewrite::{OutboundRequest, build_outbound, rewritten_uri, uri_parses};
use crate::stats::{SharedStats, StatsCounter, sat_inc, stats_text};

verus! {

/// An inbound request, reduced to the parts the proxy core reads: the path,
/// the query if any, and the headers.  Method and body pass through the
/// host untouched.
pub struct InboundRequest {
    pub path: Vec<u8>,
    pub query: Option<Vec<u8>>,
    pub headers: Vec<Header>,
}

/// Whether a path selects the local status endpoint.
pub open spec fn is_status_path(path: Seq<u8>) -> bool {
    path == "/status".spec_bytes()
}

/// What the host must do with a handled request: answer it locally with
/// `body`, or forward the rewritten request upstream.
pub enum ProxyAction {
    Status { body: Vec<u8> },
    Forward { outbound: OutboundRequest },
}

/// Handle one request against the counter and the fixed upstream base.
///
/// A `/status` request leaves the counter untouched and is answered with its
/// snapshot.  Any other request first bumps the counter — attempts are
/// counted, not successes — and is then rewritten; it comes back as a
/// forwarding order exactly when the rewritten target is a valid URI, and
/// as `UriConstruction` otherwise, the attempt staying counted either way.
pub fn handle_request(req: InboundRequest, stats: &mut StatsCounter, base: &Vec<u8>) -> (r:
    Result<ProxyAction, ProxyError>)
    ensures
        is_status_path(req.path@) ==> {
            &&& *final(stats) == *old(stats)
            &&& r matches Ok(ProxyAction::Status { body }) && body@ == stats_text(
                old(stats).proxied(),
            )
        },
        !is_status_path(req.path@) ==> {
            &&& final(stats).proxied() == sat_inc(old(stats).proxied())
            &&& (r is Ok <==> uri_parses(
                rewritten_uri(base@, req.path@, req.query.deep_view()),
            ))
            &&& (r matches Ok(a) ==> a matches ProxyAction::Forward { outbound } && {
                &&& outbound.uri_bytes@ == rewritten_uri(base@, req.path@, req.query.deep_view())
                &&& outbound.headers.deep_view() == crate::headers::sanitize_spec(
                    req.headers.deep_view(),
                )
            })
            &&& (r matches Err(e) ==> e == ProxyError::UriConstruction)
        },
{
    let status = lit_bytes("/status");
    if bytes_eq(req.path.as_slice(), status.as_slice()) {
        Ok(ProxyAction::Status { body: stats.render() })
    } else {
        stats.increment();
        match build_outbound(base, &req.path, &req.query, &req.headers) {
            Ok(outbound) => Ok(ProxyAction::Forward { outbound }),
            Err(e) => Err(e),
        }
    }
}

/// The per-request orchestrator the host hands requests to: the fixed
/// upstream base plus the process-wide counter, shared across all
/// concurrent invocations.
pub struct ProxyHandler {
    base: Vec<u8>,
    stats: SharedStats,
}

impl ProxyHandler {
    /// The upstream base this handler rewrites against.
    pub closed spec fn base_view(&self) -> Seq<u8> {
        self.base@
    }

    /// A handler for the given upstream base, with a fresh counter.
    pub fn new(base: Vec<u8>) -> (r: ProxyHandler)
        ensures
            r.base_view() == base@,
    {
        ProxyHandler { base, stats: SharedStats::new() }
    }

    /// Handle one request, sharing the counter with every concurrent
    /// invocation.  The counter's own contract lives on
    /// [`handle_request`]; here the counter value is whatever the lock
    /// holds when this request gets its turn.
    pub fn handle(&self, req: InboundRequest) -> (r: Result<ProxyAction, ProxyError>)
        ensures
            is_status_path(req.path@) ==> (r matches Ok(ProxyAction::Status { body }) && (exists|
                n: usize,
            | body@ == stats_text(n))),
            !is_status_path(req.path@) ==> {
                &&& (r is Ok <==> uri_parses(
                    rewritten_uri(self.base_view(), req.path@, req.query.deep_view()),
                ))
                &&& (r matches Ok(a) ==> a matches ProxyAction::Forward { outbound } && {
                    &&& outbound.uri_bytes@ == rewritten_uri(
                        self.base_view(),
                        req.path@,
                        req.query.deep_view(),
                    )
                    &&& outbound.headers.deep_view() == crate::headers::sanitize_spec(
                        req.headers.deep_view(),
                    )
                })
                &&& (r matches Err(e) ==> e == ProxyError::UriConstruction)
            },
    {
        let (mut counter, handle) = self.stats.acquire();
        let r = handle_request(req, &mut counter, &self.base);
        self.stats.release(handle, counter);
        r
    }

    /// The counter's current textual snapshot.
    pub fn status_text(&self) -> (r: Vec<u8>)
        ensures
            exists|n: usize| r@ == stats_text(n),
    {
        self.stats.snapshot_text()
    }
}

/// The answer owed to the caller once the upstream call has come back:
/// the upstream response is relayed verbatim, and a transport failure
/// surfaces as `UpstreamUnreachable` — never retried, never swallowed.
pub fn relay<T>(outcome: Option<T>) -> (r: Result<T, ProxyError>)
    ensures
        outcome matches Some(resp) ==> (r matches Ok(v) && v == resp),
        outcome is None ==> (r matches Err(e) && e == ProxyError::UpstreamUnreachable),
{
    match outcome {
        Option::Some(resp) => Ok(resp),
        Option::None => Err(ProxyError::UpstreamUnreachable),
    }
}

} // verus!
