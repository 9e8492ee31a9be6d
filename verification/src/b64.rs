//! Byte blobs travel on the wire as URL-safe base64 text.  The encoding
//! itself is done by the `base64` crate; its result is named `b64_of` and the
//! decoder is specified as its exact inverse.

use base64::Engine;
use vstd::prelude::*;

verus! {

/// The URL-safe, padded base64 text of the byte sequence `b` — the result of
/// base64's `URL_SAFE` engine, a function of the bytes alone.
pub uninterp spec fn b64_of(b: Seq<u8>) -> Seq<char>;

/// Relies on base64's `Engine::encode` with the `URL_SAFE` engine: the
/// returned text is the URL-safe base64 encoding of the input bytes.
#[verifier::external_body]
pub fn b64_encode(b: &Vec<u8>) -> (r: Vec<char>)
    ensures
        r@ == b64_of(b@),
{
    base64::engine::general_purpose::URL_SAFE.encode(b).chars().collect()
}

/// Relies on base64's `Engine::decode` with the `URL_SAFE` engine, whose
/// configuration requires canonical padding and rejects nonzero trailing
/// bits: decoding succeeds exactly on the canonical encoding of some byte
/// sequence, and returns those bytes.
#[verifier::external_body]
pub fn b64_decode(t: &Vec<char>) -> (r: Option<Vec<u8>>)
    ensures
        r matches Some(d) ==> t@ == b64_of(d@) && (forall|bs: Seq<u8>| t@ == b64_of(bs) ==> bs
            == d@),
        r is None ==> !(exists|bs: Seq<u8>| t@ == b64_of(bs)),
{
    let s: String = t.iter().collect();
    base64::engine::general_purpose::URL_SAFE.decode(s).ok()
}

} // verus!
