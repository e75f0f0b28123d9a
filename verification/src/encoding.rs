//! Trusted boundary to the `base64` crate.

use vstd::prelude::*;

verus! {

/// The standard (padded) base64 encoding of a byte sequence, as
/// `base64::encode` produces it. Deterministic in the bytes alone.
pub uninterp spec fn b64_of(b: Seq<u8>) -> Seq<char>;

/// The outcome of `base64::decode` on a string: `Some` bytes when the
/// string is valid standard base64, `None` otherwise. Deterministic in
/// the characters alone.
pub uninterp spec fn b64_decode_of(s: Seq<char>) -> Option<Seq<u8>>;

/// Relies on base64::encode: standard alphabet with padding, four output
/// characters for every three input bytes begun, and decodable back to
/// exactly the input bytes.
#[verifier::external_body]
pub(crate) fn b64_encode(b: &Vec<u8>) -> (r: String)
    ensures
        r@ == b64_of(b@),
        b64_decode_of(r@) == Some(b@),
        r@.len() == 4 * ((b@.len() + 2) / 3),
{
    base64::encode(b.as_slice())
}

/// Relies on base64::decode: accepts exactly the strings that are valid
/// standard base64 and returns their decoded bytes.
#[verifier::external_body]
pub(crate) fn b64_decode(s: &str) -> (r: Result<Vec<u8>, ()>)
    ensures
        match r {
            Ok(v) => b64_decode_of(s@) == Some(v@),
            Err(()) => b64_decode_of(s@) is None,
        },
{
    match base64::decode(s) {
        Ok(v) => Ok(v),
        Err(_) => Err(()),
    }
}

} // verus!
