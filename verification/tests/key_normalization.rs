use strategy_crypto::errors::CryptoError;
use strategy_crypto::keys::parse_key;

const DEFAULT_KEY: &str = "agfdsfsdafsdafdsafsdafdsafdfghdy";

#[test]
fn raw_32_byte_key_is_used_directly() {
    let key = "0123456789abcdef0123456789abcdef";
    let parsed = parse_key(key).unwrap();
    assert_eq!(parsed, key.as_bytes().to_vec());
}

#[test]
fn hex_key_decodes_to_32_bytes() {
    let value: Vec<u8> = (0u8..32).collect();
    let key = hex::encode(&value);
    assert_eq!(key.len(), 64);
    assert_eq!(parse_key(&key).unwrap(), value);
}

#[test]
fn uppercase_hex_key_decodes_to_32_bytes() {
    let value: Vec<u8> = (100u8..132).collect();
    let key = hex::encode_upper(&value);
    assert_eq!(key.len(), 64);
    assert_eq!(parse_key(&key).unwrap(), value);
}

#[test]
fn base64_key_decodes_to_32_bytes() {
    let value: Vec<u8> = (0u8..32).map(|b| b.wrapping_mul(7)).collect();
    let key = base64::Engine::encode(&base64::engine::general_purpose::STANDARD, &value);
    assert_eq!(key.len(), 44);
    assert_eq!(parse_key(&key).unwrap(), value);
}

#[test]
fn empty_key_falls_back_to_default() {
    let from_empty = parse_key("").unwrap();
    let from_default = parse_key(DEFAULT_KEY).unwrap();
    assert_eq!(from_empty, from_default);
    assert_eq!(from_empty, DEFAULT_KEY.as_bytes().to_vec());
}

#[test]
fn raw_path_takes_precedence_over_hex() {
    // 32 characters of valid hex: taken as the raw ASCII bytes, never decoded.
    let key = "00000000000000000000000000000000";
    assert_eq!(parse_key(key).unwrap(), vec![b'0'; 32]);
}

#[test]
fn short_key_is_rejected() {
    assert_eq!(parse_key("short"), Err(CryptoError::KeyFormat));
}

#[test]
fn wrong_length_decodes_fall_through_and_fail() {
    // 40 hex characters decode to 20 bytes; as base64 they decode to 30
    // bytes; neither is 32, so the key is rejected.
    let key = hex::encode([5u8; 20]);
    assert_eq!(key.len(), 40);
    assert_eq!(parse_key(&key), Err(CryptoError::KeyFormat));
}

#[test]
fn non_decodable_key_is_rejected() {
    assert_eq!(parse_key("!!! not hex, not base64 !!!"), Err(CryptoError::KeyFormat));
}

#[test]
fn key_format_error_message() {
    let e = parse_key("short").unwrap_err();
    assert_eq!(e.message(), "key must be a 32-byte value in hex, base64, or raw form");
}
