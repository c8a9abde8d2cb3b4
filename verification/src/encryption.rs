//! At-rest encryption of secrets with AES-256-GCM.
//!
//! An encrypted blob is the 12-byte nonce followed by the ciphertext and its
//! 16-byte tag, the whole encoded as padded standard base64.
use crate::codec::{
    base64_decode, base64_encode, base64_encode_spec, base64_standard_decode, opt_bytes,
    string_from_utf8,
};
use aes_gcm::aead::{Aead, AeadCore, KeyInit, OsRng};
use aes_gcm::{Aes256Gcm, Key, Nonce};
use vstd::prelude::*;
use vstd::utf8::{
    decode_utf8, encode_utf8, encode_utf8_decode_utf8, encode_utf8_valid_utf8, valid_utf8,
};
use zeroize::Zeroizing;

verus! {

/// The longest plaintext (in bytes) that AES-GCM accepts: 2^36.
pub open spec fn max_plaintext_len() -> int {
    0x10_0000_0000
}

/// Why an encryption or decryption was refused.
#[derive(Debug, Clone, Copy, PartialEq, Eq)]
pub enum CryptoError {
    /// The cipher refused the plaintext (longer than `max_plaintext_len`).
    EncryptionFailed,
    /// The encoded text is not valid base64.
    InvalidBase64,
    /// The decoded blob holds no more than the 12-byte nonce.
    CiphertextTooShort,
    /// Authentication failed: wrong key or corrupted data.
    DecryptionFailed,
    /// The decrypted bytes are not valid UTF-8.
    InvalidUtf8,
}

impl CryptoError {
    /// A human-readable description of the error.
    pub fn message(&self) -> (res: String)
        ensures
            res@ == self.message_spec(),
    {
        match self {
            CryptoError::EncryptionFailed => String::from_str("AES-GCM encryption failed"),
            CryptoError::InvalidBase64 => String::from_str("Base64 decode failed"),
            CryptoError::CiphertextTooShort => String::from_str("Ciphertext too short"),
            CryptoError::DecryptionFailed => String::from_str(
                "AES-GCM decryption failed — wrong key or corrupted data",
            ),
            CryptoError::InvalidUtf8 => String::from_str("Decrypted bytes are not valid UTF-8"),
        }
    }

    /// The text of `message`.
    pub open spec fn message_spec(&self) -> Seq<char> {
        match self {
            CryptoError::EncryptionFailed => "AES-GCM encryption failed"@,
            CryptoError::InvalidBase64 => "Base64 decode failed"@,
            CryptoError::CiphertextTooShort => "Ciphertext too short"@,
            CryptoError::DecryptionFailed => "AES-GCM decryption failed — wrong key or corrupted data"@,
            CryptoError::InvalidUtf8 => "Decrypted bytes are not valid UTF-8"@,
        }
    }
}

/// What AES-256-GCM with the given key and nonce (and no associated data)
/// makes of a plaintext: the ciphertext followed by the tag.
pub uninterp spec fn aes256_gcm_seal(key: Seq<u8>, nonce: Seq<u8>, plaintext: Seq<u8>) -> Seq<u8>;

/// What AES-256-GCM decryption with the given key and nonce makes of a
/// ciphertext-and-tag: the plaintext, or `None` when authentication fails.
pub uninterp spec fn aes256_gcm_open(key: Seq<u8>, nonce: Seq<u8>, ciphertext: Seq<u8>) -> Option<
    Seq<u8>,
>;

/// The encoded blob for a plaintext, key and nonce: base64 of the nonce
/// followed by the sealed plaintext.
pub open spec fn encoded_blob(plaintext: Seq<u8>, key: Seq<u8>, nonce: Seq<u8>) -> Seq<char> {
    base64_encode_spec(nonce + aes256_gcm_seal(key, nonce, plaintext))
}

/// Encryption of `plaintext` under `key` with the given nonce.
pub open spec fn encrypt_spec(plaintext: Seq<u8>, key: Seq<u8>, nonce: Seq<u8>) -> Result<
    Seq<char>,
    CryptoError,
> {
    if plaintext.len() > max_plaintext_len() {
        Err(CryptoError::EncryptionFailed)
    } else {
        Ok(encoded_blob(plaintext, key, nonce))
    }
}

/// Decryption of an encoded blob under `key`.
pub open spec fn decrypt_spec(encoded: Seq<char>, key: Seq<u8>) -> Result<Seq<u8>, CryptoError> {
    match base64_standard_decode(encoded) {
        None => Err(CryptoError::InvalidBase64),
        Some(blob) => if blob.len() <= 12 {
            Err(CryptoError::CiphertextTooShort)
        } else {
            match aes256_gcm_open(key, blob.take(12), blob.skip(12)) {
                Some(p) => Ok(p),
                None => Err(CryptoError::DecryptionFailed),
            }
        },
    }
}

/// Decryption of an encoded blob under `key`, read as UTF-8 text.
pub open spec fn decrypt_str_spec(encoded: Seq<char>, key: Seq<u8>) -> Result<Seq<char>, CryptoError> {
    match decrypt_spec(encoded, key) {
        Ok(b) => if valid_utf8(b) {
            Ok(decode_utf8(b))
        } else {
            Err(CryptoError::InvalidUtf8)
        },
        Err(e) => Err(e),
    }
}

/// The view of a text result.
pub open spec fn text_result(r: Result<String, CryptoError>) -> Result<Seq<char>, CryptoError> {
    match r {
        Ok(s) => Ok(s@),
        Err(e) => Err(e),
    }
}

/// Decrypted bytes held in a `zeroize::Zeroizing` buffer, which wipes them
/// from memory when dropped.
#[verifier::external_body]
pub struct SecretBytes {
    inner: Zeroizing<Vec<u8>>,
}

/// What a `SecretBytes` buffer holds.
pub uninterp spec fn secret_bytes(s: SecretBytes) -> Seq<u8>;

impl View for SecretBytes {
    type V = Seq<u8>;

    open spec fn view(&self) -> Seq<u8> {
        secret_bytes(*self)
    }
}

/// `Zeroizing::new`: wraps the buffer, which is wiped when dropped.
#[verifier::external_body]
fn zeroizing_new(v: Vec<u8>) -> (res: SecretBytes)
    ensures
        secret_bytes(res) == v@,
{
    SecretBytes { inner: Zeroizing::new(v) }
}

/// A copy of the bytes held by the `Zeroizing` buffer (through its `Deref`).
#[verifier::external_body]
fn zeroizing_to_vec(z: &SecretBytes) -> (res: Vec<u8>)
    ensures
        res@ == secret_bytes(*z),
{
    z.inner.to_vec()
}

impl SecretBytes {
    /// A copy of the secret bytes.
    pub fn to_vec(&self) -> (res: Vec<u8>)
        ensures
            res@ == self@,
    {
        zeroizing_to_vec(self)
    }
}

/// The view of a decrypted-bytes result.
pub open spec fn secret_result(r: Result<SecretBytes, CryptoError>) -> Result<Seq<u8>, CryptoError> {
    match r {
        Ok(z) => Ok(z@),
        Err(e) => Err(e),
    }
}

/// `Aes256Gcm::encrypt` with no associated data. It refuses only plaintexts
/// longer than 2^36 bytes; otherwise the output is the ciphertext and a
/// 16-byte tag, and decryption with the same key and nonce gives the
/// plaintext back.
#[verifier::external_body]
fn aes256_gcm_encrypt(key: &[u8; 32], nonce: &[u8; 12], plaintext: &[u8]) -> (res: Option<Vec<u8>>)
    ensures
        match res {
            Some(ct) => {
                &&& plaintext@.len() <= max_plaintext_len()
                &&& ct@ == aes256_gcm_seal(key@, nonce@, plaintext@)
                &&& ct@.len() == plaintext@.len() + 16
                &&& aes256_gcm_open(key@, nonce@, ct@) == Some(plaintext@)
            },
            None => plaintext@.len() > max_plaintext_len(),
        },
{
    let cipher = Aes256Gcm::new(Key::<Aes256Gcm>::from_slice(key));
    cipher.encrypt(Nonce::from_slice(nonce), plaintext).ok()
}

/// `Aes256Gcm::decrypt` with no associated data; its result is named. A
/// ciphertext shorter than the 16-byte tag is always refused.
#[verifier::external_body]
fn aes256_gcm_decrypt(key: &[u8; 32], nonce: &[u8], ciphertext: &[u8]) -> (res: Option<Vec<u8>>)
    requires
        nonce@.len() == 12,
    ensures
        opt_bytes(res) == aes256_gcm_open(key@, nonce@, ciphertext@),
        ciphertext@.len() < 16 ==> res is None,
{
    let cipher = Aes256Gcm::new(Key::<Aes256Gcm>::from_slice(key));
    cipher.decrypt(Nonce::from_slice(nonce), ciphertext).ok()
}

/// `Aes256Gcm::generate_nonce` with the operating system's random source.
/// Nothing is promised of the bytes.
#[verifier::external_body]
fn random_nonce() -> (res: [u8; 12]) {
    Aes256Gcm::generate_nonce(&mut OsRng).into()
}

/// Encrypts `plaintext` under `key` with the given nonce. Returns the base64
/// text of `<nonce>||<ciphertext+tag>`; decrypting it with the same key gives
/// the plaintext back.
pub fn encrypt_with_nonce(plaintext: &[u8], key: &[u8; 32], nonce: &[u8; 12]) -> (res: Result<
    String,
    CryptoError,
>)
    ensures
        text_result(res) == encrypt_spec(plaintext@, key@, nonce@),
        res is Ok ==> aes256_gcm_seal(key@, nonce@, plaintext@).len() == plaintext@.len() + 16,
        res matches Ok(s) ==> base64_standard_decode(s@) matches Some(b) && b.len() == plaintext@.len()
            + 28,
        res matches Ok(s) ==> decrypt_spec(s@, key@) == Ok::<Seq<u8>, CryptoError>(plaintext@),
{
    let ct = match aes256_gcm_encrypt(key, nonce, plaintext) {
        Some(ct) => ct,
        None => return Err(CryptoError::EncryptionFailed),
    };
    let mut blob: Vec<u8> = Vec::new();
    let mut i: usize = 0;
    while i < 12
        invariant
            0 <= i <= 12,
            blob@ == nonce@.take(i as int),
        decreases 12 - i,
    {
        blob.push(nonce[i]);
        i = i + 1;
    }
    let mut j: usize = 0;
    while j < ct.len()
        invariant
            0 <= j <= ct@.len(),
            blob@ == nonce@ + ct@.take(j as int),
        decreases ct@.len() - j,
    {
        blob.push(ct[j]);
        j = j + 1;
    }
    assert(nonce@.take(12) =~= nonce@);
    assert(ct@.take(ct@.len() as int) =~= ct@);
    let encoded = base64_encode(blob.as_slice());
    proof {
        assert(blob@.take(12) =~= nonce@);
        assert(blob@.skip(12) =~= ct@);
    }
    Ok(encoded)
}

/// Encrypts `plaintext` with AES-256-GCM under a fresh random nonce.
/// Returns the base64 text of `<12-byte nonce>||<ciphertext+tag>`, which
/// `decrypt` with the same key turns back into the plaintext.
pub fn encrypt(plaintext: &[u8], key: &[u8; 32]) -> (res: Result<String, CryptoError>)
    ensures
        exists|nonce: Seq<u8>|
            nonce.len() == 12 && text_result(res) == #[trigger] encrypt_spec(
                plaintext@,
                key@,
                nonce,
            ) && (res is Ok ==> aes256_gcm_seal(key@, nonce, plaintext@).len() == plaintext@.len()
                + 16),
        res is Err <==> plaintext@.len() > max_plaintext_len(),
        res matches Ok(s) ==> base64_standard_decode(s@) matches Some(b) && b.len() == plaintext@.len()
            + 28,
        res matches Ok(s) ==> decrypt_spec(s@, key@) == Ok::<Seq<u8>, CryptoError>(plaintext@),
{
    let nonce = random_nonce();
    let res = encrypt_with_nonce(plaintext, key, &nonce);
    assert(nonce@.len() == 12);
    res
}

/// Decrypts a base64 blob produced by `encrypt`.
pub fn decrypt(encoded: &str, key: &[u8; 32]) -> (res: Result<SecretBytes, CryptoError>)
    ensures
        secret_result(res) == decrypt_spec(encoded@, key@),
        base64_standard_decode(encoded@) matches Some(b) && 12 < b.len() < 28 ==> res
            == Err::<SecretBytes, CryptoError>(CryptoError::DecryptionFailed),
{
    let blob = match base64_decode(encoded) {
        Some(b) => b,
        None => return Err(CryptoError::InvalidBase64),
    };
    if blob.len() <= 12 {
        return Err(CryptoError::CiphertextTooShort);
    }
    let (nonce, ct) = blob.as_slice().split_at(12);
    proof {
        assert(nonce@ =~= blob@.take(12));
        assert(ct@ =~= blob@.skip(12));
    }
    match aes256_gcm_decrypt(key, nonce, ct) {
        Some(plain) => Ok(zeroizing_new(plain)),
        None => Err(CryptoError::DecryptionFailed),
    }
}

/// Encrypts the UTF-8 bytes of a string; see `encrypt`.
pub fn encrypt_str(s: &str, key: &[u8; 32]) -> (res: Result<String, CryptoError>)
    ensures
        exists|nonce: Seq<u8>|
            nonce.len() == 12 && text_result(res) == #[trigger] encrypt_spec(
                encode_utf8(s@),
                key@,
                nonce,
            ) && (res is Ok ==> aes256_gcm_seal(key@, nonce, encode_utf8(s@)).len() == encode_utf8(
                s@,
            ).len() + 16),
        res is Err <==> encode_utf8(s@).len() > max_plaintext_len(),
        res matches Ok(e) ==> base64_standard_decode(e@) matches Some(b) && b.len() == encode_utf8(
            s@,
        ).len() + 28,
        res matches Ok(e) ==> decrypt_str_spec(e@, key@) == Ok::<Seq<char>, CryptoError>(s@),
{
    proof {
        encode_utf8_valid_utf8(s@);
        encode_utf8_decode_utf8(s@);
    }
    encrypt(s.as_bytes(), key)
}

/// Decrypts a blob produced by `encrypt_str` and reads it as UTF-8 text.
pub fn decrypt_str(encoded: &str, key: &[u8; 32]) -> (res: Result<String, CryptoError>)
    ensures
        text_result(res) == decrypt_str_spec(encoded@, key@),
        base64_standard_decode(encoded@) matches Some(b) && 12 < b.len() < 28 ==> res
            == Err::<String, CryptoError>(CryptoError::DecryptionFailed),
{
    let bytes = decrypt(encoded, key)?;
    match string_from_utf8(bytes.to_vec()) {
        Some(s) => Ok(s),
        None => Err(CryptoError::InvalidUtf8),
    }
}

} // verus!
