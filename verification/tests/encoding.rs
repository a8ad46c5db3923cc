//! The wire-line encoding as seen through the public protocol functions,
//! cross-checked against the standard base64 engine, plus the small
//! helpers.

use base64::Engine;
use secure_chat::chat::outbound_line;
use secure_chat::ecdh::{generate_room_key, EcdhKey};
use secure_chat::errors::ChatError;
use secure_chat::handshake::hello_line;
use secure_chat::sealed::open;
use secure_chat::util;
use secure_chat::wire::{bytes_eq, trim_bytes, trim_end_bytes};

#[test]
fn hello_line_is_standard_base64() {
    let pair = EcdhKey::create();
    let expected = pair.public_key_bytes();
    let line = hello_line(&pair);
    // Exactly the standard padded encoding of the public bytes: 65 bytes
    // encode to 4 * ceil(65 / 3) = 88 characters, none of them whitespace.
    assert_eq!(line.len(), 88);
    assert!(line.iter().all(|b| !b" \t\r\n".contains(b)));
    let decoded = base64::engine::general_purpose::STANDARD.decode(&line).unwrap();
    assert_eq!(decoded, expected);
}

#[test]
fn outbound_line_is_standard_base64() {
    let key = generate_room_key();
    let line = outbound_line(&key, b"exact encoding\n").unwrap();
    // The line is the standard encoding of the sealed packet, and the
    // packet opens back to the trimmed input.
    let packet = base64::engine::general_purpose::STANDARD.decode(&line).unwrap();
    assert_eq!(packet.len(), b"exact encoding".len() + 28);
    assert_eq!(open(&key, &packet).unwrap(), b"exact encoding");
}

#[test]
fn garbled_peer_line_is_an_encoding_error() {
    let pair = EcdhKey::create();
    let err = secure_chat::handshake::derive_session_key(pair, b"?not base64?\n").unwrap_err();
    assert_eq!(err, ChatError::EncodingError);
}

#[test]
fn trim_removes_surrounding_whitespace() {
    assert_eq!(trim_bytes(b"  hello \r\n"), b"hello");
    assert_eq!(trim_bytes(b"\t\n"), b"");
    assert_eq!(trim_bytes(b"solid"), b"solid");
    assert_eq!(trim_end_bytes(b"  keep front \n"), b"  keep front");
    assert_eq!(trim_end_bytes(b""), b"");
}

#[test]
fn byte_equality() {
    assert!(bytes_eq(b"abc", b"abc"));
    assert!(!bytes_eq(b"abc", b"abd"));
    assert!(!bytes_eq(b"abc", b"ab"));
    assert!(bytes_eq(b"", b""));
}

#[test]
fn add_small_numbers() {
    assert_eq!(util::add(2, 3), 5);
    assert_eq!(util::add(-7, 7), 0);
    assert_eq!(util::add(i32::MAX - 1, 1), i32::MAX);
}

#[test]
fn error_labels() {
    assert_eq!(ChatError::TransportError.label(), "transport error");
    assert_eq!(ChatError::EncodingError.label(), "encoding error");
    assert_eq!(ChatError::InvalidPeerKey.label(), "invalid peer key");
    assert_eq!(ChatError::InvalidPacket.label(), "invalid packet");
    assert_eq!(ChatError::AuthenticationFailure.label(), "authentication failure");
}
