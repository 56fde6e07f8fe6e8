//! Base64url (unpadded) text for the binary fields of a JSON Web Key,
//! delegated to the `base64` crate behind trusted wrappers.

use vstd::prelude::*;
use crate::Error;

verus! {

/// The base64url (URL-safe alphabet, no padding) encoding of a byte
/// sequence. The encoding itself is performed by the `base64` crate; this
/// name only fixes that it is a pure function of the input bytes.
pub uninterp spec fn b64url_of(v: Seq<u8>) -> Seq<char>;

/// Relies on `base64::encode_config` with `URL_SAFE_NO_PAD`: the returned
/// text depends on the input bytes alone.
#[verifier::external_body]
pub(crate) fn b64url_encode(v: &[u8]) -> (r: String)
    ensures
        r@ == b64url_of(v@),
{
    base64::encode_config(v, base64::URL_SAFE_NO_PAD)
}

/// Relies on `base64::decode_config` with the URL-safe alphabet: decoding
/// inverts encoding, so input that is the encoding of some byte sequence
/// decodes to exactly that sequence. Any other input yields unspecified
/// bytes or an invalid-key error.
#[verifier::external_body]
pub(crate) fn b64url_decode(s: &str) -> (r: Result<Vec<u8>, Error>)
    ensures
        r matches Ok(out) ==> forall|v: Seq<u8>| s@ == b64url_of(v) ==> out@ == v,
        r matches Err(e) ==> e is UnsupportedOrInvalidKey && forall|v: Seq<u8>|
            s@ != b64url_of(v),
{
    match base64::decode_config(s, base64::URL_SAFE_NO_PAD.decode_allow_trailing_bits(true)) {
        Ok(v) => Ok(v),
        Err(_) => Err(Error::UnsupportedOrInvalidKey),
    }
}

} // verus!
