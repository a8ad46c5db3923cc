//! The error taxonomy of the protocol.
//!
//! Transport failures drop a connection; encoding failures drop it during the
//! handshake and are passed through as raw lines in the steady state; a
//! malformed peer key aborts the handshake; an authentication failure is
//! fatal during room-key delivery and scoped to a single message afterwards.

use vstd::prelude::*;

verus! {

/// Everything that can go wrong on a connection.
#[derive(Clone, Copy, Debug, PartialEq, Eq, Structural)]
pub enum ChatError {
    /// Socket I/O failed; the connection is dropped.
    TransportError,
    /// A wire line was not valid base64.
    EncodingError,
    /// The peer's public key bytes were malformed or not a curve point.
    InvalidPeerKey,
    /// A sealed packet was too short to hold a nonce and a tag.
    InvalidPacket,
    /// The AEAD tag did not verify: wrong key or tampered data,
    /// deliberately not distinguished.
    AuthenticationFailure,
}

impl ChatError {
    /// A short stable label for logs and user-facing notices.
    pub fn label(&self) -> (r: &'static str)
        ensures
            r@ =~= self.label_spec(),
    {
        match self {
            ChatError::TransportError => "transport error",
            ChatError::EncodingError => "encoding error",
            ChatError::InvalidPeerKey => "invalid peer key",
            ChatError::InvalidPacket => "invalid packet",
            ChatError::AuthenticationFailure => "authentication failure",
        }
    }

    /// What `label` returns for each variant.
    pub open spec fn label_spec(&self) -> Seq<char> {
        match self {
            ChatError::TransportError => "transport error"@,
            ChatError::EncodingError => "encoding error"@,
            ChatError::InvalidPeerKey => "invalid peer key"@,
            ChatError::InvalidPacket => "invalid packet"@,
            ChatError::AuthenticationFailure => "authentication failure"@,
        }
    }
}

} // verus!
