//! The two-party handshake: public keys are exchanged as base64 lines, each
//! side derives the session key from its own ephemeral pair and the peer's
//! public bytes, and the server delivers the room key sealed under that
//! session key.
//!
//! The handshake is fail-closed: any decode, key-agreement or
//! authentication failure aborts the connection without admitting it to the
//! relay, and a connection is only admitted once it is `Ready`.

use crate::b64::{b64_decode, b64_encode, b64enc};
use crate::ecdh::{is_sec1_point, session_key_of, EcdhKey};
use crate::errors::ChatError;
use crate::sealed::{is_sealed, open, seal};
use crate::wire::{is_ascii_ws, lemma_trim_of_clean, trim_bytes, trim_spec};
use vstd::prelude::*;

verus! {

/// The states a connection's handshake moves through, in order; any failure
/// moves it to `Closed` instead.
#[derive(Clone, Copy, Debug, PartialEq, Eq, Structural)]
pub enum HandshakeState {
    /// Nothing exchanged yet; the ephemeral pair is fresh.
    Init,
    /// Both public keys are known and the session key is derived.
    KeysExchanged,
    /// The sealed room key has been produced and awaits delivery.
    RoomKeyInFlight,
    /// The room key is shared; the connection may join the relay.
    Ready,
    /// The handshake was aborted or the connection is done.
    Closed,
}

/// The public-key line a party sends: the base64 encoding of its ephemeral
/// public bytes, free of whitespace.
pub fn hello_line(pair: &EcdhKey) -> (r: Vec<u8>)
    ensures
        r@ == b64enc(pair@),
        trim_spec(r@) == r@,
{
    let pub_bytes = pair.public_key_bytes();
    let line = b64_encode(pub_bytes.as_slice());
    proof {
        lemma_trim_of_clean(line@);
    }
    line
}

/// Derive the 32-byte session key from an own ephemeral pair (consumed) and
/// the peer's public-key line. Fails with `EncodingError` when the trimmed
/// line is not base64, and with `InvalidPeerKey` when the decoded bytes are
/// not a curve point.
pub fn derive_session_key(pair: EcdhKey, peer_line: &[u8]) -> (r: Result<Vec<u8>, ChatError>)
    ensures
        r matches Ok(k) ==> exists|d: Seq<u8>|
            {
                &&& trim_spec(peer_line@) == b64enc(d)
                &&& is_sec1_point(d)
                &&& k@ == session_key_of(pair@, d)
                &&& k@ == session_key_of(d, pair@)
                &&& k@.len() == 32
            },
        forall|d: Seq<u8>|
            trim_spec(peer_line@) == b64enc(d) && is_sec1_point(d) ==> r is Ok && r->Ok_0@
                == session_key_of(pair@, d) && session_key_of(pair@, d) == session_key_of(
                d,
                pair@,
            ),
        (forall|d: Seq<u8>| trim_spec(peer_line@) != b64enc(d)) ==> r == Err::<
            Vec<u8>,
            ChatError,
        >(ChatError::EncodingError),
        forall|d: Seq<u8>|
            trim_spec(peer_line@) == b64enc(d) && !is_sec1_point(d) ==> r == Err::<
                Vec<u8>,
                ChatError,
            >(ChatError::InvalidPeerKey),
        r matches Err(e) ==> e == ChatError::EncodingError || e == ChatError::InvalidPeerKey,
{
    let trimmed = trim_bytes(peer_line);
    let peer_bytes = match b64_decode(trimmed.as_slice()) {
        Ok(d) => d,
        Err(e) => {
            return Err(e);
        },
    };
    pair.derive_aes_key(peer_bytes.as_slice())
}

/// The room-key delivery line: the room key sealed under the session key,
/// base64-encoded. Sealing this one packet is the session key's only use.
pub fn seal_room_key(session_key: &[u8], room_key: &[u8]) -> (r: Vec<u8>)
    requires
        session_key@.len() == 32,
        room_key@.len() == 32,
    ensures
        exists|p: Seq<u8>|
            {
                &&& #[trigger] b64enc(p) == r@
                &&& is_sealed(session_key@, p, room_key@)
            },
        trim_spec(r@) == r@,
{
    let packet = seal(session_key, room_key);
    let line = b64_encode(packet.as_slice());
    proof {
        lemma_trim_of_clean(line@);
    }
    line
}

/// Recover the room key from the delivery line under the session key. Fails
/// with `EncodingError` when the trimmed line is not base64, and otherwise
/// exactly as [`open`] does; any failure here is fatal to the connection.
/// Every line produced by [`seal_room_key`] under the same session key
/// yields the room key it sealed, byte for byte.
pub fn open_room_key(session_key: &[u8], line: &[u8]) -> (r: Result<Vec<u8>, ChatError>)
    requires
        session_key@.len() == 32,
    ensures
        r matches Ok(k) ==> exists|p: Seq<u8>|
            {
                &&& trim_spec(line@) == b64enc(p)
                &&& is_sealed(session_key@, p, k@)
            },
        forall|p: Seq<u8>, k: Seq<u8>|
            trim_spec(line@) == b64enc(p) && is_sealed(session_key@, p, k) ==> r is Ok
                && r->Ok_0@ == k,
        (forall|p: Seq<u8>| trim_spec(line@) != b64enc(p)) ==> r == Err::<Vec<u8>, ChatError>(
            ChatError::EncodingError,
        ),
        forall|p: Seq<u8>|
            trim_spec(line@) == b64enc(p) && p.len() < 28 ==> r == Err::<Vec<u8>, ChatError>(
                ChatError::InvalidPacket,
            ),
        r matches Err(e) ==> e == ChatError::EncodingError || e == ChatError::InvalidPacket
            || e == ChatError::AuthenticationFailure,
{
    let trimmed = trim_bytes(line);
    let packet = match b64_decode(trimmed.as_slice()) {
        Ok(p) => p,
        Err(e) => {
            return Err(e);
        },
    };
    open(session_key, packet.as_slice())
}

/// The server's side of one connection's handshake. It owns a fresh
/// ephemeral pair and a read-only copy of the process room key, and moves
/// `Init → RoomKeyInFlight → Ready`, or to `Closed` on any failure.
pub struct ServerHandshake {
    state: HandshakeState,
    pair: Option<EcdhKey>,
    room_key: Vec<u8>,
}

impl ServerHandshake {
    /// The current protocol state.
    pub closed spec fn state(&self) -> HandshakeState {
        self.state
    }

    /// The public bytes of the ephemeral pair, while it is still held.
    pub closed spec fn pair_pub(&self) -> Seq<u8> {
        self.pair->Some_0@
    }

    /// The room key this connection will deliver.
    pub closed spec fn room_key_view(&self) -> Seq<u8> {
        self.room_key@
    }

    /// Well-formedness: the room key is 32 bytes and the ephemeral pair is
    /// present until it has been consumed.
    pub closed spec fn wf(&self) -> bool {
        &&& self.room_key@.len() == 32
        &&& self.state == HandshakeState::Init ==> self.pair is Some
    }

    /// Start a handshake for one accepted connection, with a fresh
    /// ephemeral pair and the process room key.
    pub fn new(room_key: Vec<u8>) -> (r: Self)
        requires
            room_key@.len() == 32,
        ensures
            r.wf(),
            r.state() == HandshakeState::Init,
            r.room_key_view() == room_key@,
    {
        ServerHandshake { state: HandshakeState::Init, pair: Some(EcdhKey::create()), room_key }
    }

    /// The server's opening line: its ephemeral public key, base64-encoded.
    pub fn hello(&self) -> (r: Vec<u8>)
        requires
            self.wf(),
            self.state() == HandshakeState::Init,
        ensures
            r@ == b64enc(self.pair_pub()),
            trim_spec(r@) == r@,
    {
        match self.pair.as_ref() {
            Some(p) => hello_line(p),
            None => vstd::pervasive::unreached(),
        }
    }

    /// Consume the client's public-key line: derive the session key, seal
    /// the room key under it, and return the delivery line to send. The
    /// ephemeral pair is consumed here, whatever the outcome; any failure
    /// closes the handshake.
    pub fn receive_client_key(&mut self, line: &[u8]) -> (r: Result<Vec<u8>, ChatError>)
        requires
            old(self).wf(),
            old(self).state() == HandshakeState::Init,
        ensures
            final(self).wf(),
            final(self).room_key_view() == old(self).room_key_view(),
            r matches Ok(out) ==> final(self).state() == HandshakeState::RoomKeyInFlight
                && exists|d: Seq<u8>, p: Seq<u8>|
                {
                    &&& #[trigger] b64enc(d) == trim_spec(line@)
                    &&& is_sec1_point(d)
                    &&& #[trigger] b64enc(p) == out@
                    &&& is_sealed(
                        session_key_of(old(self).pair_pub(), d),
                        p,
                        old(self).room_key_view(),
                    )
                },
            forall|d: Seq<u8>| trim_spec(line@) == b64enc(d) && is_sec1_point(d) ==> r is Ok,
            r matches Err(e) ==> e == ChatError::EncodingError || e == ChatError::InvalidPeerKey,
            r is Err ==> final(self).state() == HandshakeState::Closed,
    {
        let pair = match self.pair.take() {
            Some(p) => p,
            None => vstd::pervasive::unreached(),
        };
        match derive_session_key(pair, line) {
            Ok(session_key) => {
                let out = seal_room_key(session_key.as_slice(), self.room_key.as_slice());
                self.state = HandshakeState::RoomKeyInFlight;
                Ok(out)
            },
            Err(e) => {
                self.state = HandshakeState::Closed;
                Err(e)
            },
        }
    }

    /// Record that the delivery line was written: the connection is now
    /// admitted to the relay.
    pub fn mark_delivered(&mut self)
        requires
            old(self).wf(),
            old(self).state() == HandshakeState::RoomKeyInFlight,
        ensures
            final(self).wf(),
            final(self).state() == HandshakeState::Ready,
            final(self).room_key_view() == old(self).room_key_view(),
    {
        self.state = HandshakeState::Ready;
    }

    /// Close the handshake after an I/O failure; a connection never stays
    /// partially keyed.
    pub fn abort(&mut self)
        requires
            old(self).wf(),
        ensures
            final(self).wf(),
            final(self).state() == HandshakeState::Closed,
    {
        self.state = HandshakeState::Closed;
    }

    /// Whether the connection has been admitted to the relay.
    pub fn is_ready(&self) -> (r: bool)
        ensures
            r <==> self.state() == HandshakeState::Ready,
    {
        self.state == HandshakeState::Ready
    }
}

/// The client's side of the handshake. It owns a fresh ephemeral pair and
/// moves `Init → KeysExchanged → Ready`, or to `Closed` on any failure; the
/// room key is only accessible once `Ready`.
pub struct ClientHandshake {
    state: HandshakeState,
    pair: Option<EcdhKey>,
    session_key: Option<Vec<u8>>,
    room_key: Option<Vec<u8>>,
}

impl ClientHandshake {
    /// The current protocol state.
    pub closed spec fn state(&self) -> HandshakeState {
        self.state
    }

    /// The public bytes of the ephemeral pair, while it is still held.
    pub closed spec fn pair_pub(&self) -> Seq<u8> {
        self.pair->Some_0@
    }

    /// The session key, once derived.
    pub closed spec fn session_key_view(&self) -> Seq<u8> {
        self.session_key->Some_0@
    }

    /// The room key, once recovered.
    pub closed spec fn room_key_view(&self) -> Seq<u8> {
        self.room_key->Some_0@
    }

    /// Well-formedness: each stage's key material is present and sized once
    /// the stage is reached, and the pair is present until consumed.
    pub closed spec fn wf(&self) -> bool {
        &&& self.state == HandshakeState::Init ==> self.pair is Some
        &&& self.state == HandshakeState::KeysExchanged ==> (self.session_key matches Some(k)
            && k@.len() == 32)
        &&& self.state == HandshakeState::Ready ==> (self.room_key matches Some(k) && k@.len()
            == 32)
    }

    /// Start a client handshake with a fresh ephemeral pair.
    pub fn new() -> (r: Self)
        ensures
            r.wf(),
            r.state() == HandshakeState::Init,
    {
        ClientHandshake {
            state: HandshakeState::Init,
            pair: Some(EcdhKey::create()),
            session_key: None,
            room_key: None,
        }
    }

    /// The client's public-key line, sent in reply to the server's.
    pub fn hello(&self) -> (r: Vec<u8>)
        requires
            self.wf(),
            self.state() == HandshakeState::Init,
        ensures
            r@ == b64enc(self.pair_pub()),
            trim_spec(r@) == r@,
    {
        match self.pair.as_ref() {
            Some(p) => hello_line(p),
            None => vstd::pervasive::unreached(),
        }
    }

    /// Consume the server's public-key line and derive the session key,
    /// consuming the ephemeral pair. Any failure closes the handshake.
    pub fn receive_server_key(&mut self, line: &[u8]) -> (r: Result<(), ChatError>)
        requires
            old(self).wf(),
            old(self).state() == HandshakeState::Init,
        ensures
            final(self).wf(),
            r is Ok ==> final(self).state() == HandshakeState::KeysExchanged,
            forall|d: Seq<u8>|
                trim_spec(line@) == b64enc(d) && is_sec1_point(d) ==> r is Ok
                    && final(self).session_key_view() == session_key_of(old(self).pair_pub(), d)
                    && session_key_of(old(self).pair_pub(), d) == session_key_of(
                    d,
                    old(self).pair_pub(),
                ),
            r matches Err(e) ==> e == ChatError::EncodingError || e == ChatError::InvalidPeerKey,
            r is Err ==> final(self).state() == HandshakeState::Closed,
    {
        let pair = match self.pair.take() {
            Some(p) => p,
            None => vstd::pervasive::unreached(),
        };
        match derive_session_key(pair, line) {
            Ok(k) => {
                self.session_key = Some(k);
                self.state = HandshakeState::KeysExchanged;
                Ok(())
            },
            Err(e) => {
                self.state = HandshakeState::Closed;
                Err(e)
            },
        }
    }

    /// Consume the room-key delivery line. On success the connection is
    /// `Ready` and holds the delivered room key; every delivery line sealed
    /// under this session key yields exactly the room key it sealed. Any
    /// failure here is fatal to the connection — there is no retry. The
    /// session key is taken and dropped here, whatever the outcome: opening
    /// this one packet is its only use.
    pub fn receive_room_key(&mut self, line: &[u8]) -> (r: Result<(), ChatError>)
        requires
            old(self).wf(),
            old(self).state() == HandshakeState::KeysExchanged,
        ensures
            final(self).wf(),
            r is Ok ==> final(self).state() == HandshakeState::Ready && exists|p: Seq<u8>|
                {
                    &&& #[trigger] b64enc(p) == trim_spec(line@)
                    &&& is_sealed(
                        old(self).session_key_view(),
                        p,
                        final(self).room_key_view(),
                    )
                },
            forall|p: Seq<u8>, k: Seq<u8>|
                trim_spec(line@) == b64enc(p) && is_sealed(old(self).session_key_view(), p, k)
                    && k.len() == 32 ==> r is Ok && final(self).room_key_view() == k,
            r matches Err(e) ==> e == ChatError::EncodingError || e == ChatError::InvalidPacket
                || e == ChatError::AuthenticationFailure,
            r is Err ==> final(self).state() == HandshakeState::Closed,
    {
        let sk = match self.session_key.take() {
            Some(k) => k,
            None => vstd::pervasive::unreached(),
        };
        match open_room_key(sk.as_slice(), line) {
            Ok(k) => {
                if k.len() != 32 {
                    // A payload of the wrong size cannot serve as a room key.
                    self.state = HandshakeState::Closed;
                    return Err(ChatError::InvalidPacket);
                }
                self.room_key = Some(k);
                self.state = HandshakeState::Ready;
                Ok(())
            },
            Err(e) => {
                self.state = HandshakeState::Closed;
                Err(e)
            },
        }
    }

    /// The recovered room key. Only a `Ready` connection — one that
    /// completed the whole handshake — can ask for it.
    pub fn room_key(&self) -> (r: &Vec<u8>)
        requires
            self.wf(),
            self.state() == HandshakeState::Ready,
        ensures
            r@ == self.room_key_view(),
            r@.len() == 32,
    {
        match self.room_key.as_ref() {
            Some(k) => k,
            None => vstd::pervasive::unreached(),
        }
    }

    /// Close the handshake after an I/O failure.
    pub fn abort(&mut self)
        requires
            old(self).wf(),
        ensures
            final(self).wf(),
            final(self).state() == HandshakeState::Closed,
    {
        self.state = HandshakeState::Closed;
    }

    /// Whether the connection has been admitted to the relay.
    pub fn is_ready(&self) -> (r: bool)
        ensures
            r <==> self.state() == HandshakeState::Ready,
    {
        self.state == HandshakeState::Ready
    }
}

/// Law: a complete handshake hands the client exactly the server's room
/// key. Both sides derive the same session key from each other's public
/// lines (Diffie-Hellman symmetry), and the delivery line opens to the room
/// key that was sealed.
pub fn handshake_round_trip(room_key: &[u8]) -> (r: Vec<u8>)
    requires
        room_key@.len() == 32,
    ensures
        r@ == room_key@,
{
    let server_pair = EcdhKey::create();
    let client_pair = EcdhKey::create();
    let server_line = hello_line(&server_pair);
    let client_line = hello_line(&client_pair);
    let server_key = derive_session_key(server_pair, client_line.as_slice()).unwrap();
    let client_key = derive_session_key(client_pair, server_line.as_slice()).unwrap();
    let delivery = seal_room_key(server_key.as_slice(), room_key);
    let recovered = open_room_key(client_key.as_slice(), delivery.as_slice()).unwrap();
    recovered
}

} // verus!
