//! The base64 line encoding used on the wire.
//!
//! Every wire line of the protocol is the standard, padded base64 encoding of
//! some byte string. `b64enc` names that encoding; the two functions here are
//! the only places the crate touches the encoder itself.

use crate::errors::ChatError;
use crate::wire::is_ascii_ws;
use base64::Engine;
use vstd::prelude::*;

verus! {

/// The standard padded base64 encoding of a byte string.
pub uninterp spec fn b64enc(data: Seq<u8>) -> Seq<u8>;

/// Relies on `base64::engine::general_purpose::STANDARD` via
/// `base64::Engine::encode`: the standard alphabet with padding, so the
/// output length is `4 * ceil(n / 3)` and no output byte is whitespace
/// (the alphabet is `A-Z a-z 0-9 + /` with `=` padding).
#[verifier::external_body]
pub(crate) fn b64_encode(data: &[u8]) -> (r: Vec<u8>)
    ensures
        r@ == b64enc(data@),
        r@.len() == 4 * ((data@.len() + 2) / 3),
        forall|i: int| 0 <= i < r@.len() ==> !is_ascii_ws(r@[i]),
{
    base64::engine::general_purpose::STANDARD.encode(data).into_bytes()
}

/// Relies on `base64::engine::general_purpose::STANDARD` via
/// `base64::Engine::decode`: it inverts `encode`, and it rejects any input
/// that `encode` cannot produce (canonical padding is required and
/// non-zero trailing bits are refused).
#[verifier::external_body]
pub(crate) fn b64_decode(data: &[u8]) -> (r: Result<Vec<u8>, ChatError>)
    ensures
        forall|d: Seq<u8>| data@ == b64enc(d) ==> r is Ok && r->Ok_0@ == d,
        r matches Ok(v) ==> data@ == b64enc(v@),
        r matches Err(e) ==> e == ChatError::EncodingError,
{
    match base64::engine::general_purpose::STANDARD.decode(data) {
        Ok(v) => Ok(v),
        Err(_) => Err(ChatError::EncodingError),
    }
}

} // verus!
