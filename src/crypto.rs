//! Key material and the cryptographic primitives of the vault: random salts
//! and data keys, password-based key derivation, authenticated wrapping of the
//! data key, and erasure of secrets.

use aes_gcm::aead::{Aead, KeyInit};
use rand::RngCore;
use vstd::prelude::*;
use vstd::string::StringSliceAdditionalSpecFns;

use crate::encoding::{ascii_bytes, hex_decode, hex_encode, hex_of, lemma_unhex_of_hex, unhex};

verus! {

/// Salt size for Argon2id key derivation.
pub const SALT_SIZE: usize = 32;

/// Size of the data-encryption key (AES-256).
pub const DEK_SIZE: usize = 32;

/// Size of the key-encryption key (AES-256).
pub const KEK_SIZE: usize = 32;

/// AES-GCM nonce size.
pub const NONCE_SIZE: usize = 12;

/// AES-GCM authentication tag size.
pub const TAG_SIZE: usize = 16;

/// Argon2id memory cost in KiB (64 MiB).
pub const ARGON2_MEMORY: u32 = 65536;

/// Argon2id number of passes.
pub const ARGON2_ITERATIONS: u32 = 3;

/// Argon2id lanes.
pub const ARGON2_PARALLELISM: u32 = 1;

/// Crypto-related errors.
#[derive(Debug, Clone)]
pub enum CryptoError {
    KeyDerivation(String),
    Encryption(String),
    Decryption(String),
    InvalidInput(String),
}

/// What Argon2id (version 0x13) writes as a 32-byte output for these inputs.
pub uninterp spec fn argon2id_output(
    password: Seq<u8>,
    salt: Seq<u8>,
    m_cost: u32,
    t_cost: u32,
    p_cost: u32,
) -> Seq<u8>;

/// What AES-256-GCM produces (ciphertext followed by tag) when it seals a
/// plaintext under a key and nonce, with no associated data.
pub uninterp spec fn aes256gcm_seal(key: Seq<u8>, nonce: Seq<u8>, plaintext: Seq<u8>) -> Seq<u8>;

/// What AES-256-GCM yields when it opens a ciphertext under a key and nonce
/// with no associated data: the plaintext, or nothing when the tag does not
/// verify.
pub uninterp spec fn aes256gcm_open(key: Seq<u8>, nonce: Seq<u8>, ciphertext: Seq<u8>) -> Option<
    Seq<u8>,
>;

/// Largest plaintext AES-GCM accepts, in bytes.
pub open spec fn gcm_max_plaintext() -> int {
    0x1000000000
}

/// Argon2 cost parameters that the argon2 crate accepts.
pub open spec fn argon2_params_valid(m_cost: u32, t_cost: u32, p_cost: u32) -> bool {
    &&& m_cost >= 8
    &&& m_cost >= 8 * p_cost
    &&& t_cost >= 1
    &&& 1 <= p_cost <= 0xFFFFFF
}

/// The key-encryption key that a password and a salt yield under the vault's
/// fixed derivation parameters.
pub open spec fn kek_of(password: Seq<u8>, salt: Seq<u8>) -> Seq<u8> {
    argon2id_output(password, salt, ARGON2_MEMORY, ARGON2_ITERATIONS, ARGON2_PARALLELISM)
}

/// Whether key derivation accepts a password (given as its UTF-8 bytes).
pub open spec fn derivable(password: Seq<u8>) -> bool {
    0 < password.len() <= 0xFFFF_FFFF
}

/// The data key a wrapped key opens to under a key-encryption key, when the
/// tag verifies and the plaintext has the data-key size.
pub open spec fn unwrap_spec(kek: Seq<u8>, wrapped: WrappedDek) -> Option<Seq<u8>> {
    match aes256gcm_open(kek, wrapped.nonce, wrapped.ciphertext) {
        Some(p) => if p.len() == DEK_SIZE {
            Some(p)
        } else {
            None
        },
        None => None,
    }
}

/// Relies on rand's OsRng::fill_bytes: fills the buffer from the operating
/// system's secure generator.
#[verifier::external_body]
pub(crate) fn os_random<const N: usize>() -> (r: [u8; N]) {
    let mut buf = [0u8; N];
    rand::rngs::OsRng.fill_bytes(&mut buf);
    buf
}

/// Relies on argon2's Params::new and Argon2::hash_password_into (Argon2id,
/// version 0x13, 32-byte output). Params::new rejects exactly the costs that
/// `argon2_params_valid` leaves out; hashing then fails only on a password
/// longer than 0xFFFF_FFFF bytes (the salt has 32 bytes, the output 32).
#[verifier::external_body]
fn argon2id_hash(
    password: &[u8],
    salt: &[u8; 32],
    m_cost: u32,
    t_cost: u32,
    p_cost: u32,
) -> (r: Result<[u8; 32], argon2::Error>)
    requires
        p_cost <= 0xFFFFFF,
    ensures
        r is Ok <==> (argon2_params_valid(m_cost, t_cost, p_cost) && password@.len() <= 0xFFFF_FFFF),
        r is Ok ==> r->Ok_0@ == argon2id_output(password@, salt@, m_cost, t_cost, p_cost),
{
    let params = argon2::Params::new(m_cost, t_cost, p_cost, Some(32))?;
    let mut out = [0u8; 32];
    argon2::Argon2::new(argon2::Algorithm::Argon2id, argon2::Version::V0x13, params)
        .hash_password_into(password, salt, &mut out)?;
    Ok(out)
}

/// Relies on aes_gcm's Aes256Gcm::encrypt (aead::Aead): fails only on a
/// plaintext over 2^36 bytes, returns the ciphertext with the 16-byte tag
/// appended, which opens back to the plaintext under the same key and nonce.
#[verifier::external_body]
pub(crate) fn aes256gcm_encrypt(key: &[u8; 32], nonce: &[u8; 12], plaintext: &[u8]) -> (r: Result<Vec<u8>, aes_gcm::Error>)
    ensures
        r is Ok <==> plaintext@.len() <= gcm_max_plaintext(),
        r is Ok ==> r->Ok_0@ == aes256gcm_seal(key@, nonce@, plaintext@),
        r is Ok ==> r->Ok_0@.len() == plaintext@.len() + TAG_SIZE,
        r is Ok ==> aes256gcm_open(key@, nonce@, r->Ok_0@) == Some(plaintext@),
{
    let cipher = aes_gcm::Aes256Gcm::new(aes_gcm::Key::<aes_gcm::Aes256Gcm>::from_slice(key));
    cipher.encrypt(aes_gcm::Nonce::from_slice(nonce), plaintext)
}

/// Relies on aes_gcm's Aes256Gcm::decrypt (aead::Aead): verifies the tag
/// before it returns the plaintext; a returned plaintext seals back to the
/// given ciphertext.
#[verifier::external_body]
pub(crate) fn aes256gcm_decrypt(key: &[u8; 32], nonce: &[u8; 12], ciphertext: &[u8]) -> (r: Result<Vec<u8>, aes_gcm::Error>)
    ensures
        r is Ok <==> aes256gcm_open(key@, nonce@, ciphertext@) is Some,
        r is Ok ==> r->Ok_0@ == aes256gcm_open(key@, nonce@, ciphertext@)->0,
        r is Ok ==> aes256gcm_seal(key@, nonce@, r->Ok_0@) == ciphertext@,
{
    let cipher = aes_gcm::Aes256Gcm::new(aes_gcm::Key::<aes_gcm::Aes256Gcm>::from_slice(key));
    cipher.decrypt(aes_gcm::Nonce::from_slice(nonce), ciphertext)
}

/// Relies on std::hint::black_box: the optimizer must assume the buffer is
/// read after the call, so the writes before it are not removed.
#[verifier::external_body]
fn keep_written<const N: usize>(data: &[u8; N])
    opens_invariants none
    no_unwind
{
    std::hint::black_box(data);
}

#[verifier::external_type_specification]
#[verifier::external_body]
pub struct ExArgon2Error(argon2::Error);

#[verifier::external_type_specification]
#[verifier::external_body]
pub struct ExAeadError(aes_gcm::Error);

/// Copies a byte sequence of exactly N bytes into an array.
pub(crate) fn to_array<const N: usize>(v: &[u8]) -> (r: [u8; N])
    requires
        v@.len() == N,
    ensures
        r@ == v@,
{
    let mut a = [0u8; N];
    let mut i: usize = 0;
    while i < N
        invariant
            0 <= i <= N,
            v@.len() == N,
            forall|j: int| 0 <= j < i ==> a@[j] == v@[j],
        decreases N - i,
    {
        a[i] = v[i];
        i = i + 1;
    }
    assert(a@ =~= v@);
    a
}

/// Generates a cryptographically secure random salt.
pub fn generate_salt() -> (r: [u8; SALT_SIZE]) {
    os_random::<SALT_SIZE>()
}

/// Generates a cryptographically secure random data-encryption key.
pub fn generate_dek() -> (r: [u8; DEK_SIZE]) {
    os_random::<DEK_SIZE>()
}

/// Derives a key-encryption key from the master password and salt with
/// Argon2id (64 MiB, 3 passes, 1 lane).
pub fn derive_kek(master_password: &str, salt: &[u8; SALT_SIZE]) -> (r: Result<[u8; KEK_SIZE], CryptoError>)
    ensures
        r is Ok <==> derivable(master_password.spec_bytes()),
        r is Ok ==> r->Ok_0@ == kek_of(master_password.spec_bytes(), salt@),
        r is Err ==> r->Err_0 is KeyDerivation,
{
    if master_password.len() == 0 {
        return Err(CryptoError::KeyDerivation(String::from_str("Master password cannot be empty")));
    }
    match argon2id_hash(
        master_password.as_bytes(),
        salt,
        ARGON2_MEMORY,
        ARGON2_ITERATIONS,
        ARGON2_PARALLELISM,
    ) {
        Ok(kek) => Ok(kek),
        Err(_) => Err(CryptoError::KeyDerivation(String::from_str("Argon2 hash failed"))),
    }
}

/// The mathematical content of a wrapped data key.
pub struct WrappedDek {
    pub nonce: Seq<u8>,
    pub ciphertext: Seq<u8>,
}

/// The linear form of a wrapped key: nonce followed by ciphertext.
pub open spec fn linear_bytes(w: WrappedDek) -> Seq<u8> {
    w.nonce + w.ciphertext
}

/// The wrapped key a linear form stands for: a fixed-width nonce prefix and
/// at least a data key and a tag of ciphertext.
pub open spec fn parse_linear(b: Seq<u8>) -> Option<WrappedDek> {
    if b.len() >= NONCE_SIZE + DEK_SIZE + TAG_SIZE {
        Some(
            WrappedDek {
                nonce: b.subrange(0, NONCE_SIZE as int),
                ciphertext: b.subrange(NONCE_SIZE as int, b.len() as int),
            },
        )
    } else {
        None
    }
}

/// The wrapped key that hex text (given as its UTF-8 bytes) stands for.
pub open spec fn parse_hex(s: Seq<u8>) -> Option<WrappedDek> {
    match unhex(s) {
        Some(b) => parse_linear(b),
        None => None,
    }
}

/// The linear form of a wrapped key whose ciphertext holds at least a data
/// key and a tag reads back to the same nonce and ciphertext.
pub proof fn lemma_linear_round_trip(w: WrappedDek)
    requires
        w.nonce.len() == NONCE_SIZE,
        w.ciphertext.len() >= DEK_SIZE + TAG_SIZE,
    ensures
        parse_linear(linear_bytes(w)) == Some(w),
{
    let b = linear_bytes(w);
    assert(b.subrange(0, NONCE_SIZE as int) =~= w.nonce);
    assert(b.subrange(NONCE_SIZE as int, b.len() as int) =~= w.ciphertext);
}

/// The hex text of such a wrapped key's linear form reads back to the same
/// nonce and ciphertext.
pub proof fn lemma_hex_round_trip(w: WrappedDek, text: &str)
    requires
        w.nonce.len() == NONCE_SIZE,
        w.ciphertext.len() >= DEK_SIZE + TAG_SIZE,
        text@ == hex_of(linear_bytes(w)),
    ensures
        parse_hex(text.spec_bytes()) == Some(w),
{
    lemma_unhex_of_hex(linear_bytes(w));
    vstd::string::is_ascii_spec_bytes(text);
    assert(text.spec_bytes() =~= ascii_bytes(hex_of(linear_bytes(w))));
    lemma_linear_round_trip(w);
}

/// Flipping one bit of a wrapped key's ciphertext never unwraps to the data
/// key that was wrapped: whatever plaintext seals to the altered ciphertext
/// differs from it.
pub proof fn lemma_flipped_ciphertext_never_yields_dek(
    kek: Seq<u8>,
    w: WrappedDek,
    dek: Seq<u8>,
    i: int,
    bit: u8,
    p: Seq<u8>,
)
    requires
        w.ciphertext == aes256gcm_seal(kek, w.nonce, dek),
        0 <= i < w.ciphertext.len(),
        bit < 8,
        aes256gcm_seal(kek, w.nonce, p) == w.ciphertext.update(
            i,
            w.ciphertext[i] ^ (1u8 << bit),
        ),
    ensures
        p != dek,
{
    let x = w.ciphertext[i];
    assert(x ^ (1u8 << bit) != x) by (bit_vector)
        requires
            bit < 8,
    ;
    assert(w.ciphertext.update(i, x ^ (1u8 << bit))[i] != w.ciphertext[i]);
}

/// Encrypted DEK: the nonce and the AES-GCM ciphertext (with its tag).
#[derive(Debug, Clone)]
pub struct EncryptedDek {
    pub nonce: [u8; NONCE_SIZE],
    pub ciphertext: Vec<u8>,
}

impl View for EncryptedDek {
    type V = WrappedDek;

    open spec fn view(&self) -> WrappedDek {
        WrappedDek { nonce: self.nonce@, ciphertext: self.ciphertext@ }
    }
}

impl EncryptedDek {
    /// Serializes the encrypted DEK to bytes (nonce, then ciphertext).
    pub fn to_bytes(&self) -> (r: Vec<u8>)
        ensures
            r@ == linear_bytes(self@),
    {
        let mut bytes: Vec<u8> = Vec::new();
        let mut i: usize = 0;
        while i < NONCE_SIZE
            invariant
                0 <= i <= NONCE_SIZE,
                bytes@ == self.nonce@.subrange(0, i as int),
            decreases NONCE_SIZE - i,
        {
            bytes.push(self.nonce[i]);
            i = i + 1;
            assert(bytes@ =~= self.nonce@.subrange(0, i as int));
        }
        let mut j: usize = 0;
        while j < self.ciphertext.len()
            invariant
                0 <= j <= self.ciphertext@.len(),
                bytes@ == self.nonce@ + self.ciphertext@.subrange(0, j as int),
            decreases self.ciphertext@.len() - j,
        {
            bytes.push(self.ciphertext[j]);
            j = j + 1;
            assert(bytes@ =~= self.nonce@ + self.ciphertext@.subrange(0, j as int));
        }
        assert(self.ciphertext@.subrange(0, j as int) =~= self.ciphertext@);
        bytes
    }

    /// Deserializes an encrypted DEK from its linear form.
    pub fn from_bytes(bytes: &[u8]) -> (r: Result<EncryptedDek, CryptoError>)
        ensures
            r is Ok <==> parse_linear(bytes@) is Some,
            r is Ok ==> r->Ok_0@ == parse_linear(bytes@)->0,
            r is Err ==> r->Err_0 is InvalidInput,
    {
        if bytes.len() < NONCE_SIZE + DEK_SIZE + TAG_SIZE {
            return Err(CryptoError::InvalidInput(String::from_str("Encrypted DEK data too short")));
        }
        let nonce = to_array::<NONCE_SIZE>(vstd::slice::slice_subrange(bytes, 0, NONCE_SIZE));
        let mut ciphertext: Vec<u8> = Vec::new();
        let mut i: usize = NONCE_SIZE;
        while i < bytes.len()
            invariant
                NONCE_SIZE <= i <= bytes@.len(),
                ciphertext@ == bytes@.subrange(NONCE_SIZE as int, i as int),
            decreases bytes@.len() - i,
        {
            ciphertext.push(bytes[i]);
            i = i + 1;
            assert(ciphertext@ =~= bytes@.subrange(NONCE_SIZE as int, i as int));
        }
        let r = EncryptedDek { nonce, ciphertext };
        assert(r@.nonce =~= parse_linear(bytes@)->0.nonce);
        Ok(r)
    }

    /// The hex text of the linear form, for text-oriented storage.
    pub fn to_hex(&self) -> (r: String)
        ensures
            r@ == hex_of(linear_bytes(self@)),
    {
        let bytes = self.to_bytes();
        hex_encode(bytes.as_slice())
    }

    /// Reads an encrypted DEK back from the hex text of its linear form.
    pub fn from_hex(hex_str: &str) -> (r: Result<EncryptedDek, CryptoError>)
        ensures
            r is Ok <==> parse_hex(hex_str.spec_bytes()) is Some,
            r is Ok ==> r->Ok_0@ == parse_hex(hex_str.spec_bytes())->0,
            r is Err ==> r->Err_0 is InvalidInput,
    {
        match hex_decode(hex_str) {
            Ok(bytes) => EncryptedDek::from_bytes(bytes.as_slice()),
            Err(_) => Err(CryptoError::InvalidInput(String::from_str("Invalid hex"))),
        }
    }
}

/// Wraps a DEK under a KEK with AES-256-GCM and a fresh random nonce.
/// Unwrapping the result under the same KEK yields the DEK back.
pub fn encrypt_dek(kek: &[u8; KEK_SIZE], dek: &[u8; DEK_SIZE]) -> (r: Result<EncryptedDek, CryptoError>)
    ensures
        r is Ok,
        r->Ok_0@.ciphertext == aes256gcm_seal(kek@, r->Ok_0@.nonce, dek@),
        r->Ok_0@.ciphertext.len() == DEK_SIZE + TAG_SIZE,
        unwrap_spec(kek@, r->Ok_0@) == Some(dek@),
{
    let nonce = os_random::<NONCE_SIZE>();
    match aes256gcm_encrypt(kek, &nonce, dek.as_slice()) {
        Ok(ciphertext) => Ok(EncryptedDek { nonce, ciphertext }),
        Err(_) => Err(CryptoError::Encryption(String::from_str("AES-GCM encryption failed"))),
    }
}

/// Unwraps a DEK: the tag is verified before any plaintext is returned, and
/// any failure (wrong key, tampering, truncation, wrong size) is a
/// `Decryption` error. A returned key is the one plaintext that seals to the
/// given ciphertext under the given key and nonce.
pub fn decrypt_dek(kek: &[u8; KEK_SIZE], encrypted_dek: &EncryptedDek) -> (r: Result<[u8; DEK_SIZE], CryptoError>)
    ensures
        r is Ok <==> unwrap_spec(kek@, encrypted_dek@) is Some,
        r is Ok ==> r->Ok_0@ == unwrap_spec(kek@, encrypted_dek@)->0,
        r is Ok ==> aes256gcm_seal(kek@, encrypted_dek@.nonce, r->Ok_0@)
            == encrypted_dek@.ciphertext,
        r is Err ==> r->Err_0 is Decryption,
{
    match aes256gcm_decrypt(kek, &encrypted_dek.nonce, encrypted_dek.ciphertext.as_slice()) {
        Ok(plaintext) => {
            if plaintext.len() != DEK_SIZE {
                return Err(
                    CryptoError::Decryption(String::from_str("Decrypted DEK has invalid size")),
                );
            }
            Ok(to_array::<DEK_SIZE>(plaintext.as_slice()))
        },
        Err(_) => Err(CryptoError::Decryption(String::from_str("AES-GCM decryption failed"))),
    }
}

/// Overwrites every byte with zero; the writes are kept by the optimizer.
pub fn secure_zero<const N: usize>(data: &mut [u8; N])
    ensures
        forall|i: int| 0 <= i < N ==> final(data)@[i] == 0,
    opens_invariants none
    no_unwind
{
    let mut i: usize = 0;
    while i < N
        invariant
            0 <= i <= N,
            forall|j: int| 0 <= j < i ==> data@[j] == 0,
        decreases N - i,
    {
        data[i] = 0;
        i = i + 1;
    }
    keep_written(data);
}

/// Sole owner of the raw bytes of a data-encryption key; the bytes are wiped
/// when the owner is dropped.
pub struct SecureDek {
    data: [u8; DEK_SIZE],
}

impl View for SecureDek {
    type V = Seq<u8>;

    closed spec fn view(&self) -> Seq<u8> {
        self.data@
    }
}

impl SecureDek {
    /// Takes ownership of the key bytes.
    pub fn new(dek: [u8; DEK_SIZE]) -> (r: SecureDek)
        ensures
            r@ == dek@,
    {
        SecureDek { data: dek }
    }

    /// Read-only access to the key bytes.
    pub fn as_bytes(&self) -> (r: &[u8; DEK_SIZE])
        ensures
            r@ == self@,
    {
        &self.data
    }

    /// A second owner of the same key bytes, for another exclusively owned slot.
    pub fn duplicate(&self) -> (r: SecureDek)
        ensures
            r@ == self@,
    {
        SecureDek { data: self.data }
    }

    /// The key bytes as lowercase hex text.
    pub fn as_hex(&self) -> (r: String)
        ensures
            r@ == hex_of(self@),
    {
        hex_encode(self.data.as_slice())
    }

    pub proof fn lemma_view_len(&self)
        ensures
            self@.len() == DEK_SIZE,
    {
    }
}

impl Drop for SecureDek {
    fn drop(&mut self)
        opens_invariants none
        no_unwind
    {
        secure_zero(&mut self.data);
    }
}

} // verus!
