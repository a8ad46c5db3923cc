//! A secure group-chat protocol library.
//!
//! Each connection performs an ephemeral elliptic-curve key agreement, the
//! server delivers a process-lifetime room key over the resulting session
//! key, and all steady-state chat traffic is relayed as authenticated
//! ciphertext. The modules mirror the protocol layers:
//!
//! - [`errors`]: the error taxonomy shared by every layer.
//! - [`wire`]: byte-level helpers for the newline-terminated wire lines.
//! - [`b64`]: the base64 line encoding used on the wire.
//! - [`ecdh`]: ephemeral key agreement and session-key derivation.
//! - [`sealed`]: the AEAD primitive (seal / open a byte payload).
//! - [`handshake`]: the two-party room-key delivery protocol.
//! - [`chat`]: steady-state message framing, parsing and relay decisions.
//! - [`list`]: a doubly-ended list container used by callers of the crate.
//! - [`util`]: small arithmetic helpers.

pub mod b64;
pub mod chat;
pub mod ecdh;
pub mod errors;
pub mod handshake;
pub mod list;
pub mod sealed;
pub mod util;
pub mod wire;
