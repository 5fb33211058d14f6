//! A minimal forwarding reverse-proxy core.
//!
//! Inbound requests are routed: a request for `/status` is answered with a
//! textual snapshot of the shared request counter, and every other request is
//! rewritten against a fixed upstream base and handed out for forwarding.
//! Hop-by-hop framing headers are stripped from the forwarded copy, and the
//! counter records every forwarding attempt, successful or not.

use vstd::prelude::*;

pub mod bytes;
pub mod handler;
pub mod headers;
pub mod rewrite;
pub mod stats;

verus! {

/// The two ways a proxied request can fail.
///
/// Either the rewritten target could not be formed into a valid URI, or the
/// upstream transport failed.  Both surface to the caller as an error
/// response; neither is retried.
#[derive(Clone, Copy, Debug, PartialEq, Eq, Structural)]
pub enum ProxyError {
    /// The rewritten request target is not a syntactically valid URI.
    UriConstruction,
    /// The connection to the upstream host failed or timed out.
    UpstreamUnreachable,
}

} // verus!
