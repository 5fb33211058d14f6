//! Helpers on byte strings.
//!
//! Header names, paths, queries and URIs all travel through the proxy as raw
//! bytes.  This module supplies the small verified operations the rest of the
//! crate needs: ASCII lowercasing, equality, and turning a string literal
//! into its byte vector.

use vstd::prelude::*;
use vstd::slice::slice_to_vec;
use vstd::string::StringSliceAdditionalSpecFns;

verus! {

/// ASCII lowercase of a single byte: `A`..`Z` map to `a`..`z`, everything
/// else is unchanged.
pub open spec fn lower_byte(b: u8) -> u8 {
    if 65 <= b && b <= 90 {
        (b + 32) as u8
    } else {
        b
    }
}

/// ASCII lowercase of a byte string, applied byte by byte.
pub open spec fn lower_bytes(s: Seq<u8>) -> Seq<u8> {
    s.map_values(|b: u8| lower_byte(b))
}

/// ASCII lowercase of a byte slice.
pub fn to_ascii_lower(s: &[u8]) -> (r: Vec<u8>)
    ensures
        r@ == lower_bytes(s@),
{
    let n: usize = s.len();
    let mut out: Vec<u8> = Vec::new();
    for i in 0..n
        invariant
            n == s@.len(),
            out@ == lower_bytes(s@).take(i as int),
    {
        let b = s[i];
        let low: u8 = if 65 <= b && b <= 90 {
            b + 32
        } else {
            b
        };
        out.push(low);
        proof {
            assert(out@ =~= lower_bytes(s@).take(i + 1));
        }
    }
    proof {
        assert(lower_bytes(s@).take(n as int) =~= lower_bytes(s@));
    }
    out
}

/// Whether two byte slices hold the same bytes.
pub fn bytes_eq(a: &[u8], b: &[u8]) -> (r: bool)
    ensures
        r == (a@ == b@),
{
    let n: usize = a.len();
    if n != b.len() {
        return false;
    }
    for i in 0..n
        invariant
            n == a@.len(),
            n == b@.len(),
            forall|j: int| 0 <= j < i ==> a@[j] == b@[j],
    {
        if a[i] != b[i] {
            return false;
        }
    }
    proof {
        assert(a@ =~= b@);
    }
    true
}

/// The bytes of a string literal.
pub fn lit_bytes(s: &str) -> (r: Vec<u8>)
    ensures
        r@ == s.spec_bytes(),
{
    slice_to_vec(s.as_bytes())
}

} // verus!
