use rustyproxy::config::default_status_bytes;
use rustyproxy::config::DRAIN_LIMIT;
use rustyproxy::config::PEEK_LIMIT;
use rustyproxy::handshake::greeting_bytes;
use rustyproxy::handshake::sniff_preamble;
use rustyproxy::handshake::upgrade_reply_bytes;

#[test]
fn greeting_is_exact() {
    let status = default_status_bytes();
    let r = greeting_bytes(&status);
    assert_eq!(r, b"HTTP/1.1 101 @RustyManager\r\n\r\n".to_vec());
}

#[test]
fn greeting_with_custom_status() {
    let r = greeting_bytes(b"ok");
    assert_eq!(r, b"HTTP/1.1 101 ok\r\n\r\n".to_vec());
}

#[test]
fn greeting_with_empty_status() {
    let r = greeting_bytes(b"");
    assert_eq!(r, b"HTTP/1.1 101 \r\n\r\n".to_vec());
}

#[test]
fn upgrade_reply_is_exact() {
    let status = default_status_bytes();
    let r = upgrade_reply_bytes(&status);
    assert_eq!(r, b"HTTP/1.1 200 @RustyManager\r\n\r\n".to_vec());
}

#[test]
fn http_without_websocket_drains_but_sends_nothing() {
    let peeked = b"GET / HTTP/1.1\r\nHost: example\r\n\r\n";
    let dec = sniff_preamble(peeked);
    assert!(dec.drain);
    assert!(!dec.send_upgrade);
}

#[test]
fn http_with_websocket_drains_and_upgrades() {
    let peeked = b"GET /ws HTTP/1.1\r\nUpgrade: WebSocket\r\n\r\n";
    let dec = sniff_preamble(peeked);
    assert!(dec.drain);
    assert!(dec.send_upgrade);
}

#[test]
fn websocket_any_casing_upgrades() {
    let peeked = b"GET / HTTP/1.1\r\nUpgrade: wEbSoCkEt\r\n\r\n";
    let dec = sniff_preamble(peeked);
    assert!(dec.send_upgrade);
}

#[test]
fn websocket_without_http_is_ignored() {
    let peeked = b"hello websocket";
    let dec = sniff_preamble(peeked);
    assert!(!dec.drain);
    assert!(!dec.send_upgrade);
}

#[test]
fn binary_preamble_left_untouched() {
    let peeked = [0u8, 1, 2, 254, 255];
    let dec = sniff_preamble(&peeked);
    assert!(!dec.drain);
    assert!(!dec.send_upgrade);
}

#[test]
fn empty_peek_left_untouched() {
    let dec = sniff_preamble(b"");
    assert!(!dec.drain);
    assert!(!dec.send_upgrade);
}

#[test]
fn sniff_and_drain_limits_are_a_kilobyte() {
    assert_eq!(PEEK_LIMIT, 1024);
    assert_eq!(DRAIN_LIMIT, 1024);
}
