//! Steady-state behaviour: outbound sealing, relay framing, inbound
//! parsing, and the lossy fan-out broadcast.

use secure_chat::chat::{
    client_handle_line, frame_relay, outbound_line, parse_message, peek_plaintext, relay_message,
    relay_round_trip, should_relay, InboundAction,
};
use secure_chat::ecdh::generate_room_key;

#[test]
fn empty_input_sends_no_packet() {
    let key = generate_room_key();
    assert_eq!(outbound_line(&key, b""), None);
    assert_eq!(outbound_line(&key, b"\n"), None);
    assert_eq!(outbound_line(&key, b"   \r\n"), None);
}

#[test]
fn nonempty_input_sends_one_line() {
    let key = generate_room_key();
    let line = outbound_line(&key, b"hi there\n").unwrap();
    // A sealed, base64-encoded packet, not the raw text.
    assert!(!line.is_empty());
    assert_ne!(line, b"hi there");
}

#[test]
fn two_clients_exchange_hello() {
    let key = generate_room_key();

    // Client 1 seals its input line.
    let line = outbound_line(&key, b"hello\n").unwrap();
    let mut wire = line.clone();
    wire.push(b'\n');

    // The server republishes the (still encrypted) line with the origin.
    let framed = frame_relay(b"127.0.0.1:50531", &wire);

    // Client 2 parses, decodes and decrypts it.
    match client_handle_line(&key, &framed) {
        InboundAction::Plaintext { sender, text } => {
            assert_eq!(sender, b"127.0.0.1:50531");
            assert_eq!(text, b"hello");
            let shown = format!(
                "{}: {}",
                String::from_utf8(sender).unwrap(),
                String::from_utf8(text).unwrap()
            );
            assert_eq!(shown, "127.0.0.1:50531: hello");
        },
        other => panic!("expected decrypted text, got {:?}", other),
    }
}

#[test]
fn unmatched_line_passes_through_verbatim() {
    let key = generate_room_key();
    let r = client_handle_line(&key, b"welcome to the room\n");
    assert_eq!(r, InboundAction::Verbatim { line: b"welcome to the room\n".to_vec() });
}

#[test]
fn matched_line_with_wrong_key_reports_sender() {
    let key = generate_room_key();
    let other = generate_room_key();
    let line = outbound_line(&key, b"secret\n").unwrap();
    let framed = frame_relay(b"10.0.0.7:1234", &line);
    let r = client_handle_line(&other, &framed);
    assert_eq!(r, InboundAction::DecryptFailed { sender: b"10.0.0.7:1234".to_vec() });
}

#[test]
fn matched_line_with_bad_payload_ignored() {
    let key = generate_room_key();
    assert_eq!(client_handle_line(&key, b"[peer]: ???\n"), InboundAction::Ignore);
    // Valid base64, but too short to be a packet.
    assert_eq!(client_handle_line(&key, b"[peer]: AAAA\n"), InboundAction::Ignore);
}

#[test]
fn parse_message_splits_at_first_separator() {
    let (sender, payload) = parse_message(b"[alice]: cGF5bG9hZA==").unwrap();
    assert_eq!(sender, b"alice");
    assert_eq!(payload, b"cGF5bG9hZA==");

    let (sender, payload) = parse_message(b"[[x]: y]: z").unwrap();
    assert_eq!(sender, b"x");
    assert_eq!(payload, b"y]: z");

    assert_eq!(parse_message(b"no separator here"), None);
    assert_eq!(parse_message(b""), None);
}

#[test]
fn frame_then_parse_inverts() {
    let framed = frame_relay(b"192.168.0.9:7000", b"payload line\n");
    assert_eq!(framed, b"[192.168.0.9:7000]: payload line\n".to_vec());
    let (sender, payload) = parse_message(&framed).unwrap();
    assert_eq!(sender, b"192.168.0.9:7000");
    assert_eq!(payload, b"payload line\n");
}

#[test]
fn relay_message_keeps_origin() {
    let m = relay_message(b"1.2.3.4:5", b"abc\n");
    assert_eq!(m.origin, b"1.2.3.4:5");
    assert_eq!(m.line, b"[1.2.3.4:5]: abc\n".to_vec());
}

#[test]
fn own_messages_are_skipped() {
    assert!(!should_relay(b"1.2.3.4:5", b"1.2.3.4:5"));
    assert!(should_relay(b"1.2.3.4:5", b"1.2.3.4:6"));
}

#[test]
fn server_peek_reads_valid_traffic_only() {
    let key = generate_room_key();
    let line = outbound_line(&key, b"log me\n").unwrap();
    assert_eq!(peek_plaintext(&key, &line).unwrap(), b"log me");
    assert_eq!(peek_plaintext(&key, b"not encrypted"), None);
    let other = generate_room_key();
    assert_eq!(peek_plaintext(&other, &line), None);
}

#[test]
fn relay_round_trip_shows_original_text() {
    let key = generate_room_key();
    let r = relay_round_trip(&key, b"127.0.0.1:9999", b"round trip\n").unwrap();
    assert_eq!(
        r,
        InboundAction::Plaintext {
            sender: b"127.0.0.1:9999".to_vec(),
            text: b"round trip".to_vec(),
        }
    );
    assert_eq!(relay_round_trip(&key, b"127.0.0.1:9999", b"\n"), None);
}

#[test]
fn broadcast_fans_out_to_other_connections() {
    let key = generate_room_key();
    let (tx, mut rx_self) = tokio::sync::broadcast::channel::<(Vec<u8>, String)>(100);
    let mut rx_b = tx.subscribe();
    let mut rx_c = tx.subscribe();

    let origin = "127.0.0.1:40001".to_string();
    let line = outbound_line(&key, b"fan out\n").unwrap();
    let framed = frame_relay(origin.as_bytes(), &line);
    tx.send((framed.clone(), origin.clone())).unwrap();

    // The publisher's own subscription receives it too, and filters it out.
    let (got, from) = rx_self.try_recv().unwrap();
    assert!(!should_relay(from.as_bytes(), origin.as_bytes()));
    assert_eq!(got, framed);

    // Every other connection receives and decrypts it.
    for rx in [&mut rx_b, &mut rx_c] {
        let (got, from) = rx.try_recv().unwrap();
        assert!(should_relay(from.as_bytes(), "127.0.0.1:40002".as_bytes()));
        match client_handle_line(&key, &got) {
            InboundAction::Plaintext { sender, text } => {
                assert_eq!(sender, origin.as_bytes());
                assert_eq!(text, b"fan out");
            },
            other => panic!("expected decrypted text, got {:?}", other),
        }
    }
}

#[test]
fn lagging_subscriber_drops_oldest() {
    let (tx, mut rx) = tokio::sync::broadcast::channel::<u32>(2);
    tx.send(1).unwrap();
    tx.send(2).unwrap();
    tx.send(3).unwrap();
    // The subscriber fell behind its bound: the oldest entry is dropped,
    // the publisher was never blocked.
    match rx.try_recv() {
        Err(tokio::sync::broadcast::error::TryRecvError::Lagged(n)) => assert_eq!(n, 1),
        other => panic!("expected a lag report, got {:?}", other),
    }
    assert_eq!(rx.try_recv().unwrap(), 2);
    assert_eq!(rx.try_recv().unwrap(), 3);
}
