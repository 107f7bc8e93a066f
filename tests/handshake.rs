use zero::content::{Body, Reply};
use zero::handshake::{compute_websocket_accept, encode_accept, handshake_reply};

#[test]
fn rfc_sample_key_gives_sample_accept() {
    assert_eq!(
        compute_websocket_accept("dGhlIHNhbXBsZSBub25jZQ=="),
        "s3pPLMBiTxaQ9kYGzzhZRbK+xOo="
    );
}

#[test]
fn accept_is_base64_of_digest() {
    let digest: [u8; 20] = [
        0xb3, 0x7a, 0x4f, 0x2c, 0xc0, 0x62, 0x4f, 0x16, 0x90, 0xf6, 0x46, 0x06, 0xcf, 0x38, 0x59,
        0x45, 0xb2, 0xbe, 0xc4, 0xea,
    ];
    assert_eq!(encode_accept(&digest), "s3pPLMBiTxaQ9kYGzzhZRbK+xOo=");
}

#[test]
fn base64_padding_cases() {
    assert_eq!(encode_accept(b""), "");
    assert_eq!(encode_accept(b"f"), "Zg==");
    assert_eq!(encode_accept(b"fo"), "Zm8=");
    assert_eq!(encode_accept(b"foo"), "Zm9v");
    assert_eq!(encode_accept(b"foob"), "Zm9vYg==");
    assert_eq!(encode_accept(&[0xfb, 0xff]), "+/8=");
}

#[test]
fn accept_differs_per_key() {
    let a = compute_websocket_accept("a");
    let b = compute_websocket_accept("b");
    assert_ne!(a, b);
    assert_eq!(a.len(), 28);
    assert!(a.ends_with('='));
    assert!(!a[..27].contains('='));
}

#[test]
fn handshake_reply_switches_protocols() {
    let r = handshake_reply(Some("dGhlIHNhbXBsZSBub25jZQ=="));
    assert_eq!(r.status(), 101);
    let h = r.headers();
    assert_eq!(
        h,
        vec![
            ("Upgrade".to_string(), "websocket".to_string()),
            ("Connection".to_string(), "Upgrade".to_string()),
            (
                "Sec-WebSocket-Accept".to_string(),
                "s3pPLMBiTxaQ9kYGzzhZRbK+xOo=".to_string()
            ),
        ]
    );
    assert!(matches!(r.body(), Body::Empty));
}

#[test]
fn handshake_without_key_hashes_empty_key() {
    let r = handshake_reply(None);
    match r {
        Reply::SwitchingProtocols { accept } => {
            assert_eq!(accept, compute_websocket_accept(""));
        }
        _ => panic!("expected a switching-protocols reply"),
    }
}
