//! The authenticated-encryption primitive shared by the handshake and the
//! steady-state chat traffic.
//!
//! A sealed packet is `nonce (12 bytes) ‖ ciphertext ‖ tag (16 bytes)` under
//! AES-256-GCM with a fresh random nonce per message. `gcm_ct` names the
//! ciphertext-with-tag that the cipher produces; [`is_sealed`] says when a
//! packet is a sealing of a plaintext under a key, and [`seal`] / [`open`]
//! are proved inverse to each other through it.

use crate::ecdh::random_bytes;
use crate::errors::ChatError;
use aes_gcm::aead::Aead;
use aes_gcm::KeyInit;
use vstd::prelude::*;

verus! {

/// The ciphertext-with-tag that AES-256-GCM produces for a key, a nonce and
/// a plaintext. Deterministic in its three arguments.
pub uninterp spec fn gcm_ct(key: Seq<u8>, nonce: Seq<u8>, plaintext: Seq<u8>) -> Seq<u8>;

/// The longest plaintext the cipher accepts for one message.
pub open spec fn max_plaintext_len() -> nat {
    0x1000000000
}

/// Whether `packet` is a sealing of `plaintext` under `key`: a 12-byte nonce
/// followed by the ciphertext-with-tag for that nonce.
pub open spec fn is_sealed(key: Seq<u8>, packet: Seq<u8>, plaintext: Seq<u8>) -> bool {
    &&& plaintext.len() <= max_plaintext_len()
    &&& packet.len() == plaintext.len() + 28
    &&& packet.skip(12) == gcm_ct(key, packet.take(12), plaintext)
}

/// Relies on `aes_gcm::Aes256Gcm` through `aead::Aead::encrypt` (with
/// `KeyInit::new_from_slice`): encryption is deterministic in key, nonce and
/// plaintext, appends a 16-byte tag, and succeeds for any plaintext up to
/// the cipher's length limit.
#[verifier::external_body]
fn aes256_gcm_seal(key: &[u8], nonce: &[u8], plaintext: &[u8]) -> (r: Vec<u8>)
    requires
        key@.len() == 32,
        nonce@.len() == 12,
        plaintext@.len() <= max_plaintext_len(),
    ensures
        r@ == gcm_ct(key@, nonce@, plaintext@),
        r@.len() == plaintext@.len() + 16,
{
    let cipher = aes_gcm::Aes256Gcm::new_from_slice(key).expect("key length checked");
    let nonce = aes_gcm::Nonce::from_slice(nonce);
    Vec::from(cipher.encrypt(nonce, plaintext).expect("plaintext length checked"))
}

/// Relies on `aes_gcm::Aes256Gcm` through `aead::Aead::decrypt`: it returns
/// the plaintext of exactly the ciphertexts that encryption under the same
/// key and nonce produces, and an error for every other input (a tag
/// mismatch; wrong key and tampered data are not distinguished).
#[verifier::external_body]
fn aes256_gcm_open(key: &[u8], nonce: &[u8], ciphertext: &[u8]) -> (r: Result<Vec<u8>, ChatError>)
    requires
        key@.len() == 32,
        nonce@.len() == 12,
    ensures
        r matches Ok(pt) ==> {
            &&& ciphertext@ == gcm_ct(key@, nonce@, pt@)
            &&& pt@.len() + 16 == ciphertext@.len()
            &&& pt@.len() <= max_plaintext_len()
        },
        forall|pt: Seq<u8>|
            pt.len() + 16 == ciphertext@.len() && pt.len() <= max_plaintext_len() && ciphertext@
                == gcm_ct(key@, nonce@, pt) ==> r is Ok && r->Ok_0@ == pt,
        r matches Err(e) ==> e == ChatError::AuthenticationFailure,
{
    let cipher = aes_gcm::Aes256Gcm::new_from_slice(key).expect("key length checked");
    let nonce = aes_gcm::Nonce::from_slice(nonce);
    match cipher.decrypt(nonce, ciphertext) {
        Ok(pt) => Ok(pt),
        Err(_) => Err(ChatError::AuthenticationFailure),
    }
}

/// Seal a plaintext under a 256-bit key: draw a fresh random 12-byte nonce
/// and return `nonce ‖ ciphertext ‖ tag`. The caller owns framing and
/// encoding; nonce freshness per key is the caller's responsibility.
pub fn seal(key: &[u8], plaintext: &[u8]) -> (r: Vec<u8>)
    requires
        key@.len() == 32,
        plaintext@.len() <= max_plaintext_len(),
    ensures
        is_sealed(key@, r@, plaintext@),
{
    let nonce = random_bytes(12);
    let mut ciphertext = aes256_gcm_seal(key, nonce.as_slice(), plaintext);
    let mut packet = nonce;
    packet.append(&mut ciphertext);
    proof {
        assert(packet@.take(12) =~= nonce@);
        assert(packet@.skip(12) =~= gcm_ct(key@, nonce@, plaintext@));
    }
    packet
}

/// Open a sealed packet under a 256-bit key. Fails with `InvalidPacket`
/// exactly when the packet is too short to hold a nonce and a tag, and with
/// `AuthenticationFailure` exactly when it is long enough but is not a
/// sealing of any plaintext under this key — wrong key and tampered data are
/// deliberately indistinguishable. Every packet that [`seal`] produced under
/// this key opens to the plaintext it sealed.
pub fn open(key: &[u8], packet: &[u8]) -> (r: Result<Vec<u8>, ChatError>)
    requires
        key@.len() == 32,
    ensures
        packet@.len() < 28 ==> r == Err::<Vec<u8>, ChatError>(ChatError::InvalidPacket),
        packet@.len() >= 28 ==> (r matches Err(e) ==> e == ChatError::AuthenticationFailure),
        r matches Ok(pt) ==> is_sealed(key@, packet@, pt@),
        forall|pt: Seq<u8>| is_sealed(key@, packet@, pt) ==> r is Ok && r->Ok_0@ == pt,
{
    if packet.len() < 28 {
        return Err(ChatError::InvalidPacket);
    }
    let nonce = vstd::slice::slice_subrange(packet, 0, 12);
    let ciphertext = vstd::slice::slice_subrange(packet, 12, packet.len());
    let r = aes256_gcm_open(key, nonce, ciphertext);
    proof {
        assert(nonce@ =~= packet@.take(12));
        assert(ciphertext@ =~= packet@.skip(12));
    }
    r
}

/// Law: `seal` then `open` with the same key and the nonce `seal` produced
/// returns the original plaintext exactly, for arbitrary byte strings
/// including the empty one.
pub fn seal_round_trip(key: &[u8], plaintext: &[u8]) -> (r: Vec<u8>)
    requires
        key@.len() == 32,
        plaintext@.len() <= max_plaintext_len(),
    ensures
        r@ == plaintext@,
{
    let packet = seal(key, plaintext);
    let opened = open(key, packet.as_slice());
    opened.unwrap()
}

} // verus!
