//! Header sanitization.
//!
//! Before a request is re-issued to the upstream, the headers that describe
//! the framing or encoding of the original hop must be dropped: forwarded
//! verbatim they could desynchronize the upstream connection.  Sanitization
//! removes exactly `content-length`, `transfer-encoding`, `accept-encoding`
//! and `content-encoding` (matched without regard to letter case) and keeps
//! every other header, with its value, in its original relative order.

use vstd::prelude::*;
use vstd::string::StringSliceAdditionalSpecFns;
use crate::bytes::{bytes_eq, lit_bytes, lower_bytes, to_ascii_lower};

verus! {

/// One HTTP header: a name and a value, both byte strings.
pub struct Header {
    pub name: Vec<u8>,
    pub value: Vec<u8>,
}

/// The mathematical image of a [`Header`].
#[verifier::ext_equal]
pub struct HeaderView {
    pub name: Seq<u8>,
    pub value: Seq<u8>,
}

impl View for Header {
    type V = HeaderView;

    open spec fn view(&self) -> HeaderView {
        HeaderView { name: self.name@, value: self.value@ }
    }
}

impl DeepView for Header {
    type V = HeaderView;

    open spec fn deep_view(&self) -> HeaderView {
        self@
    }
}

impl Header {
    /// An identical copy.
    pub fn duplicate(&self) -> (r: Header)
        ensures
            r@ == self@,
    {
        Header {
            name: vstd::slice::slice_to_vec(self.name.as_slice()),
            value: vstd::slice::slice_to_vec(self.value.as_slice()),
        }
    }
}

/// The names of the headers that must not be forwarded, all lowercase.
pub open spec fn content_length_name() -> Seq<u8> {
    "content-length".spec_bytes()
}

pub open spec fn transfer_encoding_name() -> Seq<u8> {
    "transfer-encoding".spec_bytes()
}

pub open spec fn accept_encoding_name() -> Seq<u8> {
    "accept-encoding".spec_bytes()
}

pub open spec fn content_encoding_name() -> Seq<u8> {
    "content-encoding".spec_bytes()
}

/// Whether a header name, compared without regard to ASCII letter case,
/// is one of the four that sanitization removes.
pub open spec fn forbidden_header_name(name: Seq<u8>) -> bool {
    ||| lower_bytes(name) == content_length_name()
    ||| lower_bytes(name) == transfer_encoding_name()
    ||| lower_bytes(name) == accept_encoding_name()
    ||| lower_bytes(name) == content_encoding_name()
}

/// The headers that survive sanitization, in their original order.
pub open spec fn sanitize_spec(hs: Seq<HeaderView>) -> Seq<HeaderView> {
    hs.filter(|h: HeaderView| !forbidden_header_name(h.name))
}

/// Whether this header name is removed by sanitization.
pub fn is_forbidden_header(name: &Vec<u8>) -> (r: bool)
    ensures
        r == forbidden_header_name(name@),
{
    let low = to_ascii_lower(name.as_slice());
    let cl = lit_bytes("content-length");
    let te = lit_bytes("transfer-encoding");
    let ae = lit_bytes("accept-encoding");
    let ce = lit_bytes("content-encoding");
    bytes_eq(low.as_slice(), cl.as_slice()) || bytes_eq(low.as_slice(), te.as_slice())
        || bytes_eq(low.as_slice(), ae.as_slice()) || bytes_eq(low.as_slice(), ce.as_slice())
}

/// Remove the framing and encoding headers; keep everything else, with its
/// value, in its original relative order.
pub fn sanitize_headers(headers: &Vec<Header>) -> (r: Vec<Header>)
    ensures
        r.deep_view() == sanitize_spec(headers.deep_view()),
{
    let n: usize = headers.len();
    let mut out: Vec<Header> = Vec::new();
    for i in 0..n
        invariant
            n == headers@.len(),
            out.deep_view() == sanitize_spec(headers.deep_view().take(i as int)),
    {
        let ghost taken = headers.deep_view().take(i as int);
        let ghost out_before = out.deep_view();
        let h = &headers[i];
        if !is_forbidden_header(&h.name) {
            out.push(h.duplicate());
            proof {
                assert(out.deep_view() =~= out_before.push(h.deep_view()));
            }
        }
        proof {
            assert(headers.deep_view().take(i + 1) =~= taken.push(h.deep_view()));
            lemma_sanitize_snoc(taken, h.deep_view());
        }
    }
    proof {
        assert(headers.deep_view().take(n as int) =~= headers.deep_view());
    }
    out
}

/// Sanitizing one more header keeps it exactly when its name is not
/// forbidden.
proof fn lemma_sanitize_snoc(hs: Seq<HeaderView>, h: HeaderView)
    ensures
        forbidden_header_name(h.name) ==> sanitize_spec(hs.push(h)) == sanitize_spec(hs),
        !forbidden_header_name(h.name) ==> sanitize_spec(hs.push(h)) == sanitize_spec(hs).push(
            h,
        ),
{
    reveal_with_fuel(Seq::<_>::filter, 2);
    let s = hs.push(h);
    assert(s.drop_last() =~= hs);
    assert(s.last() == h);
}

/// No forbidden header name survives sanitization.
pub proof fn lemma_sanitize_removes_forbidden(hs: Seq<HeaderView>, i: int)
    requires
        0 <= i < sanitize_spec(hs).len(),
    ensures
        !forbidden_header_name(sanitize_spec(hs)[i].name),
{
    hs.lemma_filter_pred(|h: HeaderView| !forbidden_header_name(h.name), i);
}

/// Every header that is not forbidden survives sanitization, with its value.
pub proof fn lemma_sanitize_keeps_others(hs: Seq<HeaderView>, i: int)
    requires
        0 <= i < hs.len(),
        !forbidden_header_name(hs[i].name),
    ensures
        sanitize_spec(hs).contains(hs[i]),
{
    hs.lemma_filter_contains(|h: HeaderView| !forbidden_header_name(h.name), i);
}

} // verus!
