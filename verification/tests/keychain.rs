use meridian::keychain::{Keychain, KeychainError};

#[test]
fn entry_names() {
    let k = Keychain::new().unwrap();
    assert_eq!(k.service(), "com.meridian.app");
    assert_eq!(k.db_key_entry(), "db.master_key");
    assert_eq!(k.token_entry("gmail"), "token.gmail");
    assert_eq!(k.account_entry("slack"), "account.slack");
}

#[test]
fn db_key_hex_roundtrip() {
    let k = Keychain::new().unwrap();
    let mut key = [0u8; 32];
    for (i, b) in key.iter_mut().enumerate() {
        *b = (i * 8) as u8;
    }
    let text = k.encode_db_key(&key);
    assert_eq!(&text[..8], "00081018");
    assert_eq!(text.len(), 64);
    assert!(k.db_key_fits(&text));
    assert_eq!(k.parse_db_key(&text).unwrap(), key);
}

#[test]
fn db_key_accepts_upper_case_and_keeps_first_32_bytes() {
    let k = Keychain::new().unwrap();
    let text = format!("{}{}", "AB".repeat(32), "cd");
    assert!(k.db_key_fits(&text));
    assert_eq!(k.parse_db_key(&text).unwrap(), [0xab; 32]);
}

#[test]
fn db_key_invalid_hex() {
    let k = Keychain::new().unwrap();
    assert!(k.db_key_fits("zz"));
    assert_eq!(k.parse_db_key("zz").unwrap_err(), KeychainError::InvalidKey);
    assert_eq!(k.parse_db_key("abc").unwrap_err(), KeychainError::InvalidKey);
}

#[test]
fn db_key_too_short_does_not_fit() {
    let k = Keychain::new().unwrap();
    assert!(!k.db_key_fits("abcd"));
}

#[test]
fn new_db_key_reads_back() {
    let k = Keychain::new().unwrap();
    let (key, text) = k.new_db_key();
    assert_eq!(text, k.encode_db_key(&key));
    assert_eq!(k.parse_db_key(&text).unwrap(), key);
}
