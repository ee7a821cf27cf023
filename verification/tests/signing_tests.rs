use auth_gateway::encoding::{ct_eq, hex_encode, percent_decode, percent_encode};
use auth_gateway::signing::{sign_value, verify_value};

fn key() -> Vec<u8> {
    b"0123456789abcdef0123456789abcdef".to_vec()
}

#[test]
fn hex_encode_exact() {
    assert_eq!(hex_encode(&[0x00, 0xff, 0x1a]), b"00ff1a".to_vec());
    assert_eq!(hex_encode(&[]), Vec::<u8>::new());
}

#[test]
fn percent_encode_exact() {
    assert_eq!(percent_encode(b"a b/c"), b"a%20b%2Fc".to_vec());
    assert_eq!(percent_encode(b"AZaz09-._~"), b"AZaz09-._~".to_vec());
    assert_eq!(
        percent_encode(b"CSRF Token mismatch detected"),
        b"CSRF%20Token%20mismatch%20detected".to_vec()
    );
}

#[test]
fn percent_decode_exact() {
    assert_eq!(percent_decode(b"a%20b%2Fc"), Some(b"a b/c".to_vec()));
    assert_eq!(percent_decode(b"a+b"), Some(b"a b".to_vec()));
    assert_eq!(percent_decode(b"%2f%2F"), Some(b"//".to_vec()));
    assert_eq!(percent_decode(b"plain"), Some(b"plain".to_vec()));
    assert_eq!(percent_decode(b"bad%zz"), None);
    assert_eq!(percent_decode(b"trunc%2"), None);
}

#[test]
fn constant_time_eq_matches_equality() {
    assert!(ct_eq(b"", b""));
    assert!(ct_eq(b"same bytes", b"same bytes"));
    assert!(!ct_eq(b"same bytes", b"same byteZ"));
    assert!(!ct_eq(b"short", b"shorter"));
}

#[test]
fn sign_then_verify_round_trip() {
    for value in [&b""[..], b"x", b"a high-entropy token", b"\x00\x01\xfe\xff"] {
        let signed = sign_value(value, &key());
        assert_eq!(verify_value(&signed, &key()), Some(value.to_vec()));
    }
}

#[test]
fn verify_rejects_wrong_key() {
    let signed = sign_value(b"secret", &key());
    let other = b"another-key-another-key-another-".to_vec();
    assert_eq!(other.len(), 32);
    assert_eq!(verify_value(&signed, &other), None);
}

#[test]
fn verify_rejects_short_input() {
    assert_eq!(verify_value(b"", &key()), None);
    assert_eq!(verify_value(&[0x61; 63], &key()), None);
}

#[test]
fn tampering_any_bit_invalidates() {
    let signed = sign_value(b"a high-entropy token", &key());
    for i in 0..signed.len() {
        for bit in 0..8u8 {
            let mut forged = signed.clone();
            forged[i] ^= 1 << bit;
            assert_eq!(verify_value(&forged, &key()), None);
        }
    }
}

#[test]
fn signed_envelope_is_tag_then_value() {
    let signed = sign_value(b"visible", &key());
    assert_eq!(signed.len(), 64 + "visible".len());
    assert_eq!(&signed[64..], b"visible");
    assert!(signed[..64]
        .iter()
        .all(|b| b.is_ascii_digit() || (b'a'..=b'f').contains(b)));
}
