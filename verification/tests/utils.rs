use zkp_exchange_network::errors::ZkpError;
use zkp_exchange_network::utils::{
    base64_decode, base64_encode, bytes_to_hex, current_timestamp, generate_nonce, hex_to_bytes,
    safe_json_parse, sha256_hash, timestamp_is_fresh, validate_timestamp,
};

#[test]
fn test_sha256_hash() {
    let data = b"test";
    let hash = sha256_hash(data);
    assert_eq!(hash.len(), 64);
}

#[test]
fn test_base64_encoding() {
    let data = b"lhelow world";
    let encoded = base64_encode(data);
    let decoded = base64_decode(&encoded).unwrap();
    assert_eq!(decoded, data);
}

#[test]
fn utils_test_timestamp_validation() {
    let now = current_timestamp();
    assert!(validate_timestamp(now, 60));
    assert!(!validate_timestamp(now - 200, 60));
}

#[test]
fn test_nonce_generation() {
    let nonce1 = generate_nonce();
    let nonce2 = generate_nonce();
    assert_eq!(nonce1.len(), 64);
    assert_ne!(nonce1, nonce2);
}

#[test]
fn sha256_known_digest() {
    assert_eq!(sha256_hash(b"abc"), "ba7816bf8f01cfea414140de5dae2223b00361a396177a9cb410ff61f20015ad");
}

#[test]
fn hex_encoding_and_round_trip() {
    assert_eq!(bytes_to_hex(&[0xde, 0xad, 0xbe, 0xef, 0x00, 0x0a]), "deadbeef000a");
    assert_eq!(hex_to_bytes("DEADbeef").unwrap(), vec![0xde, 0xad, 0xbe, 0xef]);
    let bytes: Vec<u8> = (0..=255u8).collect();
    assert_eq!(hex_to_bytes(&bytes_to_hex(&bytes)).unwrap(), bytes);
    assert!(matches!(hex_to_bytes("abc"), Err(ZkpError::EncodingError(_))));
    assert!(matches!(hex_to_bytes("zz"), Err(ZkpError::EncodingError(_))));
    assert_eq!(hex_to_bytes("").unwrap(), Vec::<u8>::new());
}

#[test]
fn base64_known_values() {
    assert_eq!(base64_encode(b"hello"), "aGVsbG8=");
    assert_eq!(base64_encode(b"hell"), "aGVsbA==");
    assert_eq!(base64_encode(b""), "");
    assert_eq!(base64_decode("aGVs").unwrap(), b"hel");
    assert!(matches!(base64_decode("aGVsbG8"), Err(ZkpError::EncodingError(_))));
    assert!(matches!(base64_decode("a*=="), Err(ZkpError::EncodingError(_))));
}

#[test]
fn freshness_edges() {
    assert!(timestamp_is_fresh(100, 40, 60));
    assert!(!timestamp_is_fresh(100, 39, 60));
    assert!(!timestamp_is_fresh(100, 101, 60));
    assert!(timestamp_is_fresh(100, 100, 0));
}

#[test]
fn nonce_is_lowercase_hex() {
    let nonce = generate_nonce();
    assert!(nonce.chars().all(|c| c.is_ascii_hexdigit() && !c.is_ascii_uppercase()));
    assert_eq!(hex_to_bytes(&nonce).unwrap().len(), 32);
}

#[test]
fn json_parsing() {
    assert!(safe_json_parse(r#"{"a": [1, 2]}"#).is_ok());
    assert!(matches!(safe_json_parse("{"), Err(ZkpError::SerializationError(_))));
}

#[test]
fn base64_length_is_four_per_started_group() {
    for (n, len) in [(0usize, 0usize), (1, 4), (2, 4), (3, 4), (4, 8), (5, 8), (6, 8), (7, 12)] {
        assert_eq!(base64_encode(&vec![7u8; n]).len(), len);
    }
}
