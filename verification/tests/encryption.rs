use base64::Engine;
use meridian::encryption::{
    decrypt, decrypt_str, encrypt, encrypt_str, encrypt_with_nonce, CryptoError,
};

#[test]
fn roundtrip() {
    let key = [42u8; 32];
    let msg = "Hello, Meridian!";
    let enc = encrypt_str(msg, &key).unwrap();
    let dec = decrypt_str(&enc, &key).unwrap();
    assert_eq!(dec, msg);
}

#[test]
fn different_nonces_per_call() {
    let key = [1u8; 32];
    let a = encrypt_str("same", &key).unwrap();
    let b = encrypt_str("same", &key).unwrap();
    assert_ne!(a, b); // random nonces → different ciphertexts
}

#[test]
fn wrong_key_fails() {
    let key1 = [1u8; 32];
    let key2 = [2u8; 32];
    let enc = encrypt_str("secret", &key1).unwrap();
    assert!(decrypt_str(&enc, &key2).is_err());
}

#[test]
fn fixed_nonce_is_deterministic_and_prefixed() {
    let key = [7u8; 32];
    let nonce = [0u8; 12];
    let a = encrypt_with_nonce(b"abc", &key, &nonce).unwrap();
    let b = encrypt_with_nonce(b"abc", &key, &nonce).unwrap();
    assert_eq!(a, b);
    // 12 zero bytes of nonce encode as 16 'A's; 12 + 3 + 16 = 31 bytes -> 44 chars.
    assert!(a.starts_with("AAAAAAAAAAAAAAAA"));
    assert_eq!(a.len(), 44);
}

#[test]
fn bytes_roundtrip() {
    let key = [9u8; 32];
    let data: Vec<u8> = (0u8..=255).collect();
    let enc = encrypt(&data, &key).unwrap();
    let dec = decrypt(&enc, &key).unwrap();
    assert_eq!(dec.to_vec(), data);
}

#[test]
fn empty_plaintext_roundtrip() {
    let key = [3u8; 32];
    let enc = encrypt_str("", &key).unwrap();
    assert_eq!(decrypt_str(&enc, &key).unwrap(), "");
}

#[test]
fn invalid_base64_is_refused() {
    let key = [1u8; 32];
    assert_eq!(decrypt_str("not base64!", &key).unwrap_err(), CryptoError::InvalidBase64);
}

#[test]
fn short_blob_is_refused() {
    let key = [1u8; 32];
    // 12 bytes only: the nonce with nothing after it.
    assert_eq!(decrypt_str("AAAAAAAAAAAAAAAA", &key).unwrap_err(), CryptoError::CiphertextTooShort);
    // 20 bytes: a nonce and less than a tag.
    assert!(matches!(decrypt("AAAAAAAAAAAAAAAAAAAAAAAAAAA=", &key), Err(CryptoError::DecryptionFailed)));
}

#[test]
fn blob_is_nonce_ciphertext_and_tag() {
    let key = [9u8; 32];
    for msg in ["", "x", "Hello, Meridian!"] {
        let enc = encrypt_str(msg, &key).unwrap();
        let blob = base64::engine::general_purpose::STANDARD.decode(&enc).unwrap();
        assert_eq!(blob.len(), 12 + msg.len() + 16);
    }
}

#[test]
fn tampered_blob_fails_authentication() {
    let key = [5u8; 32];
    let enc = encrypt_str("payload", &key).unwrap();
    let mut chars: Vec<char> = enc.chars().collect();
    let i = 20;
    chars[i] = if chars[i] == 'A' { 'B' } else { 'A' };
    let tampered: String = chars.into_iter().collect();
    assert_eq!(decrypt_str(&tampered, &key).unwrap_err(), CryptoError::DecryptionFailed);
}

#[test]
fn invalid_utf8_is_refused() {
    let key = [8u8; 32];
    let enc = encrypt(&[0xff, 0xfe], &key).unwrap();
    assert!(decrypt(&enc, &key).is_ok());
    assert_eq!(decrypt_str(&enc, &key).unwrap_err(), CryptoError::InvalidUtf8);
}

#[test]
fn crypto_error_messages() {
    assert_eq!(CryptoError::CiphertextTooShort.message(), "Ciphertext too short");
    assert_eq!(CryptoError::InvalidBase64.message(), "Base64 decode failed");
}
