//! Ephemeral elliptic-curve key agreement.
//!
//! Each handshake attempt creates a fresh key pair over the P-256 curve. The
//! pair is consumed by the derivation step, so no two session keys can ever
//! come from the same ephemeral pair. The view of a key pair is the SEC1
//! encoding of its public point, which is also exactly what travels on the
//! wire.

use crate::errors::ChatError;
use rand::RngCore;
use vstd::prelude::*;

verus! {

/// The ephemeral secret scalar, held opaquely. Verus cannot be given a
/// declaration of `p256::ecdh::EphemeralSecret` itself (the type is generic
/// over a curve-arithmetic trait), so the scalar lives behind this struct and
/// nothing is ever stated about it; the contracts below speak only of public
/// bytes. The wrapped secret zeroizes itself when dropped.
#[verifier::external_body]
struct SecretScalar {
    inner: p256::ecdh::EphemeralSecret,
}

/// Whether a byte string is a valid SEC1 encoding of a point on the curve,
/// that is, whether `p256::PublicKey::from_sec1_bytes` accepts it.
pub uninterp spec fn is_sec1_point(bytes: Seq<u8>) -> bool;

/// The 32-byte session key that the holder of the key pair encoded as
/// `own_pub` derives against the peer point encoded as `peer_pub`: the
/// HKDF-SHA-256 expansion of their Diffie-Hellman shared secret.
pub uninterp spec fn session_key_of(own_pub: Seq<u8>, peer_pub: Seq<u8>) -> Seq<u8>;

/// An ephemeral key pair, created per handshake attempt and consumed by
/// [`EcdhKey::derive_aes_key`]. The secret scalar is zeroized when the pair
/// is dropped.
pub struct EcdhKey {
    secret: SecretScalar,
    pub_bytes: Vec<u8>,
}

impl View for EcdhKey {
    type V = Seq<u8>;

    /// A key pair is abstracted by the SEC1 encoding of its public point.
    closed spec fn view(&self) -> Seq<u8> {
        self.pub_bytes@
    }
}

impl EcdhKey {
    /// Create a fresh ephemeral key pair from the operating system's
    /// cryptographically secure random source.
    ///
    /// Relies on `p256::elliptic_curve::ecdh::EphemeralSecret::random`,
    /// `p256::PublicKey::from` and `PublicKey::to_sec1_bytes`: the encoding
    /// of an own public point is a valid uncompressed SEC1 point encoding
    /// (65 bytes for P-256), and decoding it yields the point back.
    #[verifier::external_body]
    pub fn create() -> (r: EcdhKey)
        ensures
            r@.len() == 65,
            is_sec1_point(r@),
    {
        let secret = p256::ecdh::EphemeralSecret::random(&mut rand::rngs::OsRng);
        let public_key = p256::PublicKey::from(&secret);
        let pub_bytes = public_key.to_sec1_bytes().to_vec();
        EcdhKey { secret: SecretScalar { inner: secret }, pub_bytes }
    }

    /// The SEC1 byte encoding of the public point, ready for transmission.
    pub fn public_key_bytes(&self) -> (r: Vec<u8>)
        ensures
            r@ == self@,
    {
        vstd::slice::slice_to_vec(self.pub_bytes.as_slice())
    }

    /// Derive the 32-byte session key against a peer's public key bytes,
    /// consuming the pair so that it can never be used for a second
    /// derivation. Fails exactly when the peer bytes are not a valid curve
    /// point.
    ///
    /// Relies on `p256::PublicKey::from_sec1_bytes` (accepts exactly the
    /// valid SEC1 point encodings), `EphemeralSecret::diffie_hellman` (both
    /// parties of an exchange compute the same shared secret, as the crate's
    /// own usage shows) and `hkdf::Hkdf::<sha2::Sha256>::expand` (cannot fail
    /// for a 32-byte output; deterministic in the input key material). The
    /// consumed secret and the intermediate shared secret are zeroized when
    /// they are dropped, on every path out of this call.
    #[verifier::external_body]
    pub fn derive_aes_key(self, other_pubkey_bytes: &[u8]) -> (r: Result<Vec<u8>, ChatError>)
        ensures
            r is Ok <==> is_sec1_point(other_pubkey_bytes@),
            r matches Ok(k) ==> {
                &&& k@ == session_key_of(self@, other_pubkey_bytes@)
                &&& session_key_of(self@, other_pubkey_bytes@) == session_key_of(
                    other_pubkey_bytes@,
                    self@,
                )
                &&& k@.len() == 32
            },
            r matches Err(e) ==> e == ChatError::InvalidPeerKey,
    {
        let other_pk = match p256::PublicKey::from_sec1_bytes(other_pubkey_bytes) {
            Ok(pk) => pk,
            Err(_) => {
                return Err(ChatError::InvalidPeerKey);
            },
        };
        let shared_secret = self.secret.inner.diffie_hellman(&other_pk);
        let hk = hkdf::Hkdf::<sha2::Sha256>::new(None, shared_secret.raw_secret_bytes());
        let mut okm = [0u8; 32];
        match hk.expand(b"chat-handshake-v1", &mut okm) {
            Ok(()) => Ok(okm.to_vec()),
            Err(_) => Err(ChatError::InvalidPeerKey),
        }
    }
}

/// Diffie-Hellman symmetry: when two fresh pairs derive against each other's
/// public bytes, both sides end up with the same 32-byte session key. The
/// derivations fail only when a public encoding is invalid, which
/// [`EcdhKey::create`] rules out for its own output.
pub fn derive_shared_pair(a: EcdhKey, b: EcdhKey) -> (r: Option<(Vec<u8>, Vec<u8>)>)
    ensures
        r matches Some(p) ==> p.0@ == p.1@ && p.0@.len() == 32,
        is_sec1_point(a@) && is_sec1_point(b@) ==> r is Some,
{
    let a_pub = a.public_key_bytes();
    let b_pub = b.public_key_bytes();
    let ka = match a.derive_aes_key(b_pub.as_slice()) {
        Ok(k) => k,
        Err(_) => {
            return None;
        },
    };
    let kb = match b.derive_aes_key(a_pub.as_slice()) {
        Ok(k) => k,
        Err(_) => {
            return None;
        },
    };
    Some((ka, kb))
}

/// Generate the process-lifetime room key: 32 bytes from the operating
/// system's cryptographically secure random source. It is generated once at
/// startup and handed read-only to every connection handler.
pub fn generate_room_key() -> (r: Vec<u8>)
    ensures
        r@.len() == 32,
{
    random_bytes(32)
}

/// Relies on `rand::rngs::OsRng` through `rand::RngCore::fill_bytes`: fills
/// the buffer with bytes from the operating system's secure random source,
/// leaving its length unchanged. Nothing can be promised about the values.
#[verifier::external_body]
pub(crate) fn random_bytes(n: usize) -> (r: Vec<u8>)
    ensures
        r@.len() == n,
{
    let mut buf = vec![0u8; n];
    rand::rngs::OsRng.fill_bytes(&mut buf);
    buf
}

} // verus!
