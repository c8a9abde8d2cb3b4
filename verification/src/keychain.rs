//! The keychain layer: the names under which Meridian keeps secrets in the
//! operating system's credential store, and the database master key, which is
//! stored there as lowercase hex.
use crate::codec::{hex_decode, hex_decode_spec, hex_encode, hex_encode_spec, lemma_hex_roundtrip};
use rand::RngCore;
use vstd::prelude::*;

verus! {

/// Why a keychain operation was refused.
#[derive(Debug, Clone, Copy, PartialEq, Eq)]
pub enum KeychainError {
    /// The credential store entry could not be created.
    EntryCreationFailed,
    /// The stored database key is not valid hex.
    InvalidKey,
    /// The credential could not be stored.
    StoreFailed,
    /// No credential is stored under the name.
    NotFound,
    /// The credential could not be deleted.
    DeleteFailed,
}

impl KeychainError {
    /// A human-readable description of the error.
    pub fn message(&self) -> (res: String)
        ensures
            res@ == self.message_spec(),
    {
        match self {
            KeychainError::EntryCreationFailed => String::from_str("Keychain entry creation failed"),
            KeychainError::InvalidKey => String::from_str("Invalid DB key in keychain"),
            KeychainError::StoreFailed => String::from_str("Could not store secret in OS keychain"),
            KeychainError::NotFound => String::from_str("Secret not found in keychain"),
            KeychainError::DeleteFailed => String::from_str("Cannot delete secret"),
        }
    }

    /// The text of `message`.
    pub open spec fn message_spec(&self) -> Seq<char> {
        match self {
            KeychainError::EntryCreationFailed => "Keychain entry creation failed"@,
            KeychainError::InvalidKey => "Invalid DB key in keychain"@,
            KeychainError::StoreFailed => "Could not store secret in OS keychain"@,
            KeychainError::NotFound => "Secret not found in keychain"@,
            KeychainError::DeleteFailed => "Cannot delete secret"@,
        }
    }
}

/// Handle on the operating system's credential store for the service
/// `com.meridian.app`.
#[derive(Debug, Clone, Copy, PartialEq, Eq)]
pub struct Keychain;

/// The service name under which every Meridian secret is stored.
pub open spec fn service_spec() -> Seq<char> {
    "com.meridian.app"@
}

/// The database key decoded from its stored hex text: `None` when the text is
/// not hex, otherwise the first 32 decoded bytes.
pub open spec fn db_key_from_hex_spec(hex: Seq<char>) -> Option<Seq<u8>> {
    match hex_decode_spec(hex) {
        Some(b) => Some(b.take(32)),
        None => None,
    }
}

/// Whether a stored key text can be read without running short: either it is
/// not hex at all, or it decodes to at least 32 bytes.
pub open spec fn db_key_text_fits(hex: Seq<char>) -> bool {
    hex_decode_spec(hex) matches Some(b) ==> b.len() >= 32
}

/// `rand::thread_rng().fill_bytes` on a 32-byte buffer. Nothing is promised of
/// the bytes.
#[verifier::external_body]
fn random_key_bytes() -> (res: [u8; 32]) {
    let mut key = [0u8; 32];
    rand::thread_rng().fill_bytes(&mut key);
    key
}

/// The text `prefix` followed by `suffix`.
fn concat_str(prefix: &str, suffix: &str) -> (res: String)
    ensures
        res@ == prefix@ + suffix@,
{
    let mut s = String::from_str(prefix);
    s.append(suffix);
    s
}

impl Keychain {
    /// Opens the keychain; this never fails.
    pub fn new() -> (res: Result<Keychain, KeychainError>)
        ensures
            res is Ok,
    {
        Ok(Keychain)
    }

    /// The service name, `com.meridian.app`.
    pub fn service(&self) -> (res: String)
        ensures
            res@ == service_spec(),
    {
        String::from_str("com.meridian.app")
    }

    /// The entry name of the database master key.
    pub fn db_key_entry(&self) -> (res: String)
        ensures
            res@ == "db.master_key"@,
    {
        String::from_str("db.master_key")
    }

    /// The entry name of an integration's OAuth token: `token.<id>`.
    pub fn token_entry(&self, integration_id: &str) -> (res: String)
        ensures
            res@ == "token."@ + integration_id@,
    {
        concat_str("token.", integration_id)
    }

    /// The entry name of an integration's account label: `account.<id>`.
    pub fn account_entry(&self, integration_id: &str) -> (res: String)
        ensures
            res@ == "account."@ + integration_id@,
    {
        concat_str("account.", integration_id)
    }

    /// The entry name of an integration's OAuth app client id:
    /// `oauth_client_id.<id>`.
    pub fn oauth_client_id_entry(&self, integration_id: &str) -> (res: String)
        ensures
            res@ == "oauth_client_id."@ + integration_id@,
    {
        concat_str("oauth_client_id.", integration_id)
    }

    /// The entry name of an integration's OAuth app client secret:
    /// `oauth_client_secret.<id>`.
    pub fn oauth_client_secret_entry(&self, integration_id: &str) -> (res: String)
        ensures
            res@ == "oauth_client_secret."@ + integration_id@,
    {
        concat_str("oauth_client_secret.", integration_id)
    }

    /// The text under which a database key is stored: its lowercase hex.
    pub fn encode_db_key(&self, key: &[u8; 32]) -> (res: String)
        ensures
            res@ == hex_encode_spec(key@),
    {
        hex_encode(key)
    }

    /// Whether `parse_db_key` can read the stored text (see `db_key_text_fits`).
    pub fn db_key_fits(&self, hex: &str) -> (res: bool)
        ensures
            res == db_key_text_fits(hex@),
    {
        match hex_decode(hex) {
            Some(b) => b.len() >= 32,
            None => true,
        }
    }

    /// Reads a stored database key: hex-decodes it and keeps the first 32 bytes.
    pub fn parse_db_key(&self, hex: &str) -> (res: Result<[u8; 32], KeychainError>)
        requires
            db_key_text_fits(hex@),
        ensures
            match db_key_from_hex_spec(hex@) {
                Some(k) => res matches Ok(key) && key@ == k,
                None => res == Err::<[u8; 32], KeychainError>(KeychainError::InvalidKey),
            },
    {
        let bytes = match hex_decode(hex) {
            Some(b) => b,
            None => return Err(KeychainError::InvalidKey),
        };
        let mut key = [0u8; 32];
        let mut i: usize = 0;
        while i < 32
            invariant
                0 <= i <= 32,
                bytes@.len() >= 32,
                forall|j: int| 0 <= j < i ==> key@[j] == bytes@[j],
            decreases 32 - i,
        {
            key[i] = bytes[i];
            i = i + 1;
        }
        assert(key@ =~= bytes@.take(32));
        Ok(key)
    }

    /// A fresh random database key and the text to store it under.
    pub fn new_db_key(&self) -> (res: ([u8; 32], String))
        ensures
            res.1@ == hex_encode_spec(res.0@),
            db_key_from_hex_spec(res.1@) == Some(res.0@),
    {
        let key = random_key_bytes();
        let text = hex_encode(&key);
        proof {
            lemma_db_key_roundtrip(key@);
        }
        (key, text)
    }
}

/// A stored database key reads back as the key that was stored.
pub proof fn lemma_db_key_roundtrip(key: Seq<u8>)
    requires
        key.len() == 32,
    ensures
        db_key_from_hex_spec(hex_encode_spec(key)) == Some(key),
        db_key_text_fits(hex_encode_spec(key)),
{
    lemma_hex_roundtrip(key);
    assert(key.take(32) =~= key);
}

} // verus!
