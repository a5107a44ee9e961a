//! The single vault-metadata record and the session's storage handle.
//!
//! The store mirrors the persisted row (salt, wrapped data key, creation time,
//! format version) and tracks whether a storage session is open and which data
//! key it holds. Reading and writing the row's bytes is left to the caller.

use vstd::prelude::*;
use vstd::string::StringSliceAdditionalSpecFns;
use vstd::utf8::{decode_utf8, encode_utf8_decode_utf8, encode_utf8_valid_utf8, valid_utf8};

use crate::crypto::{
    aes256gcm_decrypt, aes256gcm_encrypt, aes256gcm_open, gcm_max_plaintext, os_random,
    parse_linear, CryptoError, EncryptedDek, SecureDek, WrappedDek, NONCE_SIZE, SALT_SIZE, TAG_SIZE,
};

verus! {

/// Format version written by this library.
pub const VAULT_FORMAT_VERSION: i32 = 1;

/// Database-related errors.
#[derive(Debug, Clone)]
pub enum DatabaseError {
    Storage(String),
    Crypto(CryptoError),
    VaultNotInitialized,
    VaultAlreadyInitialized,
    InvalidConfig(String),
}

/// The mathematical content of the metadata record.
pub struct MetaView {
    pub salt: Seq<u8>,
    pub wrapped: WrappedDek,
    pub created_at: i64,
    pub version: i32,
}

/// Relies on chrono's Utc::now and DateTime::timestamp: the current time in
/// whole seconds since the Unix epoch.
#[verifier::external_body]
pub(crate) fn unix_now() -> (r: i64) {
    chrono::Utc::now().timestamp()
}

/// Relies on String::from_utf8: succeeds exactly on valid UTF-8, and the
/// string holds the characters those bytes encode.
#[verifier::external_body]
fn string_from_utf8(bytes: Vec<u8>) -> (r: Option<String>)
    ensures
        r is Some <==> valid_utf8(bytes@),
        r is Some ==> r->0@ == decode_utf8(bytes@),
{
    String::from_utf8(bytes).ok()
}

/// The text a sealed record field holds under a data key: the field is a
/// nonce followed by AES-GCM output, which must open to UTF-8.
pub open spec fn field_plaintext(dek: Seq<u8>, data: Seq<u8>) -> Option<Seq<char>> {
    if data.len() < NONCE_SIZE {
        None
    } else {
        match aes256gcm_open(
            dek,
            data.subrange(0, NONCE_SIZE as int),
            data.subrange(NONCE_SIZE as int, data.len() as int),
        ) {
            Some(p) => if valid_utf8(p) {
                Some(decode_utf8(p))
            } else {
                None
            },
            None => None,
        }
    }
}

/// Metadata for vault encryption: salt, wrapped data key, creation time
/// (unix seconds) and format version.
#[derive(Debug, Clone)]
pub struct VaultMeta {
    pub salt: [u8; SALT_SIZE],
    pub encrypted_dek: EncryptedDek,
    pub created_at: i64,
    pub version: i32,
}

impl View for VaultMeta {
    type V = MetaView;

    open spec fn view(&self) -> MetaView {
        MetaView {
            salt: self.salt@,
            wrapped: self.encrypted_dek@,
            created_at: self.created_at,
            version: self.version,
        }
    }
}

impl VaultMeta {
    /// A record created now, in the current format version.
    pub fn new(salt: [u8; SALT_SIZE], encrypted_dek: EncryptedDek) -> (r: VaultMeta)
        ensures
            r.salt == salt,
            r.encrypted_dek@ == encrypted_dek@,
            r.version == VAULT_FORMAT_VERSION,
    {
        VaultMeta { salt, encrypted_dek, created_at: unix_now(), version: VAULT_FORMAT_VERSION }
    }

    /// Reads a persisted row; a salt that is not 32 bytes or a wrapped key
    /// too short to hold nonce, key and tag is malformed configuration.
    pub fn from_row(salt: &[u8], encrypted_dek: &[u8], created_at: i64, version: i32) -> (r: Result<VaultMeta, DatabaseError>)
        ensures
            r is Ok <==> (salt@.len() == SALT_SIZE && parse_linear(encrypted_dek@) is Some),
            r is Ok ==> r->Ok_0@ == (MetaView {
                salt: salt@,
                wrapped: parse_linear(encrypted_dek@)->0,
                created_at,
                version,
            }),
            r is Err ==> r->Err_0 is InvalidConfig,
    {
        if salt.len() != SALT_SIZE {
            return Err(DatabaseError::InvalidConfig(String::from_str("Invalid salt size")));
        }
        let mut salt_arr = [0u8; SALT_SIZE];
        let mut i: usize = 0;
        while i < SALT_SIZE
            invariant
                0 <= i <= SALT_SIZE,
                salt@.len() == SALT_SIZE,
                forall|j: int| 0 <= j < i ==> salt_arr@[j] == salt@[j],
            decreases SALT_SIZE - i,
        {
            salt_arr[i] = salt[i];
            i = i + 1;
        }
        assert(salt_arr@ =~= salt@);
        match EncryptedDek::from_bytes(encrypted_dek) {
            Ok(wrapped) => Ok(VaultMeta { salt: salt_arr, encrypted_dek: wrapped, created_at, version }),
            Err(_) => Err(DatabaseError::InvalidConfig(String::from_str("Invalid encrypted DEK"))),
        }
    }
}

/// The mathematical content of the store.
pub struct StoreView {
    /// The persisted record, if the vault was created.
    pub meta: Option<MetaView>,
    /// When the wrapping was last replaced.
    pub updated_at: Option<i64>,
    /// Whether a storage session is open.
    pub open: bool,
    /// The data key the open session holds.
    pub dek: Option<Seq<u8>>,
}

/// The vault-metadata record with the session's storage handle.
pub struct MetadataStore {
    meta: Option<VaultMeta>,
    updated_at: Option<i64>,
    open: bool,
    dek: Option<SecureDek>,
}

impl View for MetadataStore {
    type V = StoreView;

    closed spec fn view(&self) -> StoreView {
        StoreView {
            meta: match self.meta {
                Some(m) => Some(m@),
                None => None,
            },
            updated_at: self.updated_at,
            open: self.open,
            dek: match self.dek {
                Some(d) => Some(d@),
                None => None,
            },
        }
    }
}

impl MetadataStore {
    /// A closed store over the record that was loaded, if any.
    pub fn new(meta: Option<VaultMeta>) -> (r: MetadataStore)
        ensures
            r@.meta == (match meta {
                Some(m) => Some(m@),
                None => None::<MetaView>,
            }),
            r@.updated_at is None,
            !r@.open,
            r@.dek is None,
    {
        MetadataStore { meta, updated_at: None, open: false, dek: None }
    }

    /// Whether the metadata record exists; needs no key material.
    pub fn is_initialized(&self) -> (r: bool)
        ensures
            r == self@.meta is Some,
    {
        self.meta.is_some()
    }

    /// Creates the record and opens a session holding the data key, unless a
    /// record already exists.
    pub fn initialize_vault(&mut self, vault_meta: VaultMeta, dek: &SecureDek) -> (r: Result<(), DatabaseError>)
        ensures
            old(self)@.meta is Some ==> r is Err && r->Err_0 is VaultAlreadyInitialized
                && final(self)@ == old(self)@,
            old(self)@.meta is None ==> r is Ok && final(self)@ == (StoreView {
                meta: Some(vault_meta@),
                updated_at: old(self)@.updated_at,
                open: true,
                dek: Some(dek@),
            }),
    {
        if self.meta.is_some() {
            return Err(DatabaseError::VaultAlreadyInitialized);
        }
        self.meta = Some(vault_meta);
        self.open = true;
        self.dek = Some(dek.duplicate());
        Ok(())
    }

    /// Opens a session holding the data key; the key itself is not checked
    /// here.
    pub fn open_with_dek(&mut self, dek: &SecureDek) -> (r: Result<(), DatabaseError>)
        ensures
            old(self)@.meta is None ==> r is Err && r->Err_0 is VaultNotInitialized
                && final(self)@ == old(self)@,
            old(self)@.meta is Some ==> r is Ok && final(self)@ == (StoreView {
                open: true,
                dek: Some(dek@),
                ..old(self)@
            }),
    {
        if self.meta.is_none() {
            return Err(DatabaseError::VaultNotInitialized);
        }
        self.open = true;
        self.dek = Some(dek.duplicate());
        Ok(())
    }

    /// The metadata record.
    pub fn load_vault_meta(&self) -> (r: Result<&VaultMeta, DatabaseError>)
        ensures
            r is Ok <==> self@.meta is Some,
            r is Ok ==> self@.meta == Some(r->Ok_0@),
            r is Err ==> r->Err_0 is VaultNotInitialized,
    {
        match &self.meta {
            Some(m) => Ok(m),
            None => Err(DatabaseError::VaultNotInitialized),
        }
    }

    /// Replaces the salt and wrapped key of the record, keeping its creation
    /// time and version.
    pub fn update_wrapping(&mut self, salt: [u8; SALT_SIZE], encrypted_dek: EncryptedDek, updated_at: i64) -> (r: Result<(), DatabaseError>)
        ensures
            old(self)@.meta is None ==> r is Err && r->Err_0 is VaultNotInitialized
                && final(self)@ == old(self)@,
            old(self)@.meta is Some ==> r is Ok && final(self)@ == (StoreView {
                meta: Some(MetaView {
                    salt: salt@,
                    wrapped: encrypted_dek@,
                    ..old(self)@.meta->0
                }),
                updated_at: Some(updated_at),
                ..old(self)@
            }),
    {
        match &self.meta {
            Some(m) => {
                let created_at = m.created_at;
                let version = m.version;
                self.meta = Some(VaultMeta { salt, encrypted_dek, created_at, version });
                self.updated_at = Some(updated_at);
                Ok(())
            },
            None => Err(DatabaseError::VaultNotInitialized),
        }
    }

    /// When the wrapping was last replaced.
    pub fn updated_at(&self) -> (r: Option<i64>)
        ensures
            r == self@.updated_at,
    {
        self.updated_at
    }

    /// Ends the session and wipes the data key it held.
    pub fn close(&mut self)
        ensures
            final(self)@ == (StoreView { open: false, dek: None, ..old(self)@ }),
    {
        self.open = false;
        self.dek = None;
    }

    /// Seals a record field under the session's data key with a fresh nonce;
    /// the result is the nonce followed by ciphertext and tag.
    pub fn encrypt_data(&self, plaintext: &str) -> (r: Result<Vec<u8>, DatabaseError>)
        ensures
            r is Ok <==> (self@.dek is Some && plaintext.spec_bytes().len() <= gcm_max_plaintext()),
            r is Ok ==> field_plaintext(self@.dek->0, r->Ok_0@) == Some(plaintext@),
            r is Ok ==> r->Ok_0@.len() == NONCE_SIZE + plaintext.spec_bytes().len() + TAG_SIZE,
            self@.dek is None ==> r is Err && r->Err_0 is VaultNotInitialized,
            r is Err && self@.dek is Some ==> r->Err_0 is Crypto && r->Err_0->Crypto_0 is Encryption,
    {
        let dek = match &self.dek {
            Some(d) => d,
            None => {
                return Err(DatabaseError::VaultNotInitialized);
            },
        };
        let nonce = os_random::<NONCE_SIZE>();
        let ciphertext = match aes256gcm_encrypt(dek.as_bytes(), &nonce, plaintext.as_bytes()) {
            Ok(c) => c,
            Err(_) => {
                return Err(
                    DatabaseError::Crypto(CryptoError::Encryption(String::from_str("AES-GCM encryption failed"))),
                );
            },
        };
        let mut result: Vec<u8> = Vec::new();
        let mut i: usize = 0;
        while i < NONCE_SIZE
            invariant
                0 <= i <= NONCE_SIZE,
                result@ == nonce@.subrange(0, i as int),
            decreases NONCE_SIZE - i,
        {
            result.push(nonce[i]);
            i = i + 1;
            assert(result@ =~= nonce@.subrange(0, i as int));
        }
        let mut j: usize = 0;
        while j < ciphertext.len()
            invariant
                0 <= j <= ciphertext@.len(),
                result@ == nonce@ + ciphertext@.subrange(0, j as int),
            decreases ciphertext@.len() - j,
        {
            result.push(ciphertext[j]);
            j = j + 1;
            assert(result@ =~= nonce@ + ciphertext@.subrange(0, j as int));
        }
        proof {
            assert(ciphertext@.subrange(0, j as int) =~= ciphertext@);
            assert(result@.subrange(0, NONCE_SIZE as int) =~= nonce@);
            assert(result@.subrange(NONCE_SIZE as int, result@.len() as int) =~= ciphertext@);
            encode_utf8_valid_utf8(plaintext@);
            encode_utf8_decode_utf8(plaintext@);
        }
        Ok(result)
    }

    /// Opens a record field sealed by `encrypt_data` under the session's data
    /// key; any failure (too short, tag mismatch, not UTF-8) is a
    /// `Decryption` error.
    pub fn decrypt_data(&self, encrypted_data: &[u8]) -> (r: Result<String, DatabaseError>)
        ensures
            r is Ok <==> (self@.dek is Some && field_plaintext(self@.dek->0, encrypted_data@) is Some),
            r is Ok ==> r->Ok_0@ == field_plaintext(self@.dek->0, encrypted_data@)->0,
            self@.dek is None ==> r is Err && r->Err_0 is VaultNotInitialized,
            r is Err && self@.dek is Some ==> r->Err_0 is Crypto && r->Err_0->Crypto_0 is Decryption,
    {
        let dek = match &self.dek {
            Some(d) => d,
            None => {
                return Err(DatabaseError::VaultNotInitialized);
            },
        };
        if encrypted_data.len() < NONCE_SIZE {
            return Err(
                DatabaseError::Crypto(CryptoError::Decryption(String::from_str("Invalid encrypted data length"))),
            );
        }
        let nonce = crate::crypto::to_array::<NONCE_SIZE>(
            vstd::slice::slice_subrange(encrypted_data, 0, NONCE_SIZE),
        );
        let body = vstd::slice::slice_subrange(encrypted_data, NONCE_SIZE, encrypted_data.len());
        let plaintext = match aes256gcm_decrypt(dek.as_bytes(), &nonce, body) {
            Ok(p) => p,
            Err(_) => {
                return Err(
                    DatabaseError::Crypto(CryptoError::Decryption(String::from_str("AES-GCM decryption failed"))),
                );
            },
        };
        match string_from_utf8(plaintext) {
            Some(text) => Ok(text),
            None => Err(
                DatabaseError::Crypto(CryptoError::Decryption(String::from_str("Invalid UTF-8"))),
            ),
        }
    }

    /// Whether a session holding a data key is open.
    pub fn is_open(&self) -> (r: bool)
        ensures
            r == (self@.open && self@.dek is Some),
    {
        self.open && self.dek.is_some()
    }
}

} // verus!
