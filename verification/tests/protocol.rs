//! Handshake and sealing behaviour, exercised end to end with the real
//! cryptography.

use secure_chat::ecdh::{derive_shared_pair, generate_room_key, EcdhKey};
use secure_chat::errors::ChatError;
use secure_chat::handshake::{
    handshake_round_trip, ClientHandshake, HandshakeState, ServerHandshake,
};
use secure_chat::sealed::{open, seal, seal_round_trip};

#[test]
fn dh_symmetry() {
    let a = EcdhKey::create();
    let b = EcdhKey::create();
    let a_pub = a.public_key_bytes();
    let b_pub = b.public_key_bytes();
    assert_eq!(a_pub.len(), 65);
    assert_eq!(b_pub.len(), 65);
    let ka = a.derive_aes_key(&b_pub).unwrap();
    let kb = b.derive_aes_key(&a_pub).unwrap();
    assert_eq!(ka, kb);
    assert_eq!(ka.len(), 32);
}

#[test]
fn dh_symmetry_paired() {
    let (ka, kb) = derive_shared_pair(EcdhKey::create(), EcdhKey::create()).unwrap();
    assert_eq!(ka, kb);
    assert_eq!(ka.len(), 32);
}

#[test]
fn two_exchanges_differ() {
    let (k1, _) = derive_shared_pair(EcdhKey::create(), EcdhKey::create()).unwrap();
    let (k2, _) = derive_shared_pair(EcdhKey::create(), EcdhKey::create()).unwrap();
    assert_ne!(k1, k2);
}

#[test]
fn invalid_peer_key_rejected() {
    let a = EcdhKey::create();
    let err = a.derive_aes_key(&[1u8, 2, 3]).unwrap_err();
    assert_eq!(err, ChatError::InvalidPeerKey);
}

#[test]
fn off_curve_peer_key_rejected() {
    let a = EcdhKey::create();
    // Right length, but not a point on the curve.
    let bogus = vec![4u8; 65];
    let err = a.derive_aes_key(&bogus).unwrap_err();
    assert_eq!(err, ChatError::InvalidPeerKey);
}

#[test]
fn seal_open_round_trip() {
    let key = generate_room_key();
    let plaintext = b"attack at dawn";
    let packet = seal(&key, plaintext);
    assert_eq!(packet.len(), plaintext.len() + 28);
    let opened = open(&key, &packet).unwrap();
    assert_eq!(opened, plaintext);
}

#[test]
fn seal_open_round_trip_empty() {
    let key = generate_room_key();
    let packet = seal(&key, b"");
    assert_eq!(packet.len(), 28);
    let opened = open(&key, &packet).unwrap();
    assert_eq!(opened, Vec::<u8>::new());
}

#[test]
fn seal_round_trip_fn() {
    let key = generate_room_key();
    let r = seal_round_trip(&key, b"any bytes \x00\xff here");
    assert_eq!(r, b"any bytes \x00\xff here");
}

#[test]
fn open_rejects_flipped_ciphertext_bit() {
    let key = generate_room_key();
    let mut packet = seal(&key, b"payload");
    packet[14] ^= 0x01;
    assert_eq!(open(&key, &packet).unwrap_err(), ChatError::AuthenticationFailure);
}

#[test]
fn open_rejects_flipped_tag_bit() {
    let key = generate_room_key();
    let mut packet = seal(&key, b"payload");
    let last = packet.len() - 1;
    packet[last] ^= 0x80;
    assert_eq!(open(&key, &packet).unwrap_err(), ChatError::AuthenticationFailure);
}

#[test]
fn open_rejects_wrong_key() {
    let key = generate_room_key();
    let other = generate_room_key();
    assert_ne!(key, other);
    let packet = seal(&key, b"payload");
    assert_eq!(open(&other, &packet).unwrap_err(), ChatError::AuthenticationFailure);
}

#[test]
fn open_rejects_short_packet() {
    let key = generate_room_key();
    assert_eq!(open(&key, &[0u8; 27]).unwrap_err(), ChatError::InvalidPacket);
    assert_eq!(open(&key, b"").unwrap_err(), ChatError::InvalidPacket);
}

#[test]
fn handshake_delivers_room_key() {
    let room_key = generate_room_key();

    let mut server = ServerHandshake::new(room_key.clone());
    let mut client = ClientHandshake::new();

    // Step 1: server sends its public key line.
    let server_hello = server.hello();
    // Step 2: client replies with its own.
    let client_hello = client.hello();
    // Step 3: both sides derive the session key.
    client.receive_server_key(&server_hello).unwrap();
    // Steps 4 and 5: the server seals the room key; the client opens it.
    let delivery = server.receive_client_key(&client_hello).unwrap();
    server.mark_delivered();
    client.receive_room_key(&delivery).unwrap();

    assert!(server.is_ready());
    assert!(client.is_ready());
    assert_eq!(client.room_key().as_slice(), room_key.as_slice());
}

#[test]
fn handshake_round_trip_fn() {
    let room_key = generate_room_key();
    assert_eq!(handshake_round_trip(&room_key), room_key);
}

#[test]
fn handshake_rejects_garbage_peer_line() {
    let mut client = ClientHandshake::new();
    let err = client.receive_server_key(b"not base64 !!!\n").unwrap_err();
    assert_eq!(err, ChatError::EncodingError);
    assert!(!client.is_ready());
}

#[test]
fn handshake_rejects_bad_point() {
    let mut server = ServerHandshake::new(generate_room_key());
    // Valid base64 of bytes that are not a curve point.
    let line = b"AAECAw==\n";
    let err = server.receive_client_key(line).unwrap_err();
    assert_eq!(err, ChatError::InvalidPeerKey);
    assert!(!server.is_ready());
}

#[test]
fn replayed_delivery_line_rejected() {
    let room_key = generate_room_key();

    // A first, completed session whose delivery line an attacker captures.
    let mut server1 = ServerHandshake::new(room_key.clone());
    let mut client1 = ClientHandshake::new();
    let s1_hello = server1.hello();
    let c1_hello = client1.hello();
    client1.receive_server_key(&s1_hello).unwrap();
    let captured = server1.receive_client_key(&c1_hello).unwrap();
    client1.receive_room_key(&captured).unwrap();

    // A new handshake derives an independent session key, so the replayed
    // packet fails authentication and the connection aborts.
    let mut server2 = ServerHandshake::new(room_key.clone());
    let mut client2 = ClientHandshake::new();
    let s2_hello = server2.hello();
    let c2_hello = client2.hello();
    client2.receive_server_key(&s2_hello).unwrap();
    let _fresh = server2.receive_client_key(&c2_hello).unwrap();
    let err = client2.receive_room_key(&captured).unwrap_err();
    assert_eq!(err, ChatError::AuthenticationFailure);
    assert!(!client2.is_ready());
}

#[test]
fn distinct_room_keys() {
    let k1 = generate_room_key();
    let k2 = generate_room_key();
    assert_eq!(k1.len(), 32);
    assert_eq!(k2.len(), 32);
    assert_ne!(k1, k2);
}

#[test]
fn handshake_states_move_in_order() {
    let mut server = ServerHandshake::new(generate_room_key());
    let mut client = ClientHandshake::new();
    assert!(!server.is_ready());
    assert!(!client.is_ready());
    let s_hello = server.hello();
    let c_hello = client.hello();
    client.receive_server_key(&s_hello).unwrap();
    assert!(!client.is_ready());
    let delivery = server.receive_client_key(&c_hello).unwrap();
    assert!(!server.is_ready());
    server.mark_delivered();
    assert!(server.is_ready());
    client.receive_room_key(&delivery).unwrap();
    assert!(client.is_ready());
    let _ = HandshakeState::Closed;
}
