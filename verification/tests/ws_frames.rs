//! WebSocket frame encoding and handshake computation.

use rustcast::ws::build_handshake_response;
use rustcast::ws::compute_accept_key;
use rustcast::ws::create_websocket_frame;
use rustcast::ws::find_websocket_key;
use rustcast::ws::name_is_ws_key;

#[test]
fn length_124_uses_one_byte_form() {
    let data = vec![7u8; 124];
    let frame = create_websocket_frame(&data);
    assert_eq!(frame[0], 0x82);
    assert_eq!(frame[1], 124);
    assert_eq!(&frame[2..], &data[..]);
    assert_eq!(frame.len(), 2 + 124);
}

#[test]
fn length_125_still_one_byte_form() {
    let frame = create_websocket_frame(&vec![0u8; 125]);
    assert_eq!(frame[1], 125);
    assert_eq!(frame.len(), 2 + 125);
}

#[test]
fn length_300_uses_two_byte_form() {
    let data = vec![9u8; 300];
    let frame = create_websocket_frame(&data);
    assert_eq!(frame[0], 0x82);
    assert_eq!(frame[1], 126);
    assert_eq!(frame[2], 0x01);
    assert_eq!(frame[3], 0x2c);
    assert_eq!(&frame[4..], &data[..]);
}

#[test]
fn length_70000_uses_eight_byte_form() {
    let data = vec![3u8; 70000];
    let frame = create_websocket_frame(&data);
    assert_eq!(frame[0], 0x82);
    assert_eq!(frame[1], 127);
    assert_eq!(&frame[2..10], &70000u64.to_be_bytes()[..]);
    assert_eq!(&frame[10..], &data[..]);
}

#[test]
fn accept_key_matches_protocol_sample() {
    let key = b"dGhlIHNhbXBsZSBub25jZQ==".to_vec();
    let accept = compute_accept_key(&key);
    assert_eq!(accept, b"s3pPLMBiTxaQ9kYGzzhZRbK+xOo=".to_vec());
}

#[test]
fn handshake_response_carries_the_token() {
    let key = b"dGhlIHNhbXBsZSBub25jZQ==".to_vec();
    let response = build_handshake_response(&key);
    let text = String::from_utf8(response).unwrap();
    assert_eq!(
        text,
        "HTTP/1.1 101 Switching Protocols\r\nUpgrade: websocket\r\nConnection: Upgrade\r\n\
         Sec-WebSocket-Accept: s3pPLMBiTxaQ9kYGzzhZRbK+xOo=\r\n\r\n"
    );
}

#[test]
fn key_header_found_case_insensitively() {
    assert!(name_is_ws_key(b"Sec-WebSocket-Key"));
    assert!(name_is_ws_key(b"SEC-WEBSOCKET-KEY"));
    assert!(!name_is_ws_key(b"Sec-WebSocket-Accept"));
    let headers = vec![
        (b"Host".to_vec(), b"example".to_vec()),
        (b"Sec-WebSocket-Key".to_vec(), b"abc123".to_vec()),
    ];
    assert_eq!(find_websocket_key(&headers), Some(b"abc123".to_vec()));
    let none = vec![(b"Host".to_vec(), b"example".to_vec())];
    assert_eq!(find_websocket_key(&none), None);
}
