//! Values exchanged with the command layer: the success/error envelope and the
//! request bodies of the lifecycle operations.

use vstd::prelude::*;

use vstd::string::StrSliceExecFns;

use crate::crypto::{decrypt_dek, derive_kek, encrypt_dek, generate_dek, generate_salt, DEK_SIZE};
use crate::vault::{password_valid, MIN_PASSWORD_CHARS};

verus! {

/// Command result envelope: a payload on success, a message on failure.
#[derive(Debug)]
pub struct CommandResult<T> {
    pub success: bool,
    pub data: Option<T>,
    pub error: Option<String>,
}

impl<T> CommandResult<T> {
    /// A successful result carrying `data`.
    pub fn success(data: T) -> (r: Self)
        ensures
            r.success,
            r.data == Some(data),
            r.error is None,
    {
        CommandResult { success: true, data: Some(data), error: None }
    }

    /// A failed result carrying the message `error`.
    pub fn error(error: String) -> (r: Self)
        ensures
            !r.success,
            r.data is None,
            r.error == Some(error),
    {
        CommandResult { success: false, data: None, error: Some(error) }
    }
}

/// Request body of vault initialization.
#[derive(Debug)]
pub struct InitializeVaultRequest {
    pub master_password: String,
}

/// Request body of vault unlock.
#[derive(Debug)]
pub struct UnlockVaultRequest {
    pub master_password: String,
}

/// Request body of a master-password change.
#[derive(Debug)]
pub struct ChangeMasterPasswordRequest {
    pub current_password: String,
    pub new_password: String,
}

/// Whether a password meets the master-password policy, without changing
/// anything.
pub fn validate_master_password(password: String) -> (r: CommandResult<bool>)
    ensures
        r.success,
        r.data == Some(password_valid(password@)),
        r.error is None,
{
    let is_valid = !password.as_str().is_empty() && password.as_str().unicode_len() >= MIN_PASSWORD_CHARS;
    CommandResult::success(is_valid)
}

/// Whether two keys hold the same bytes.
fn same_key(a: &[u8; DEK_SIZE], b: &[u8; DEK_SIZE]) -> (r: bool)
    ensures
        r == (a@ == b@),
{
    let mut i: usize = 0;
    while i < DEK_SIZE
        invariant
            0 <= i <= DEK_SIZE,
            forall|j: int| 0 <= j < i ==> a@[j] == b@[j],
        decreases DEK_SIZE - i,
    {
        if a[i] != b[i] {
            return false;
        }
        i = i + 1;
    }
    assert(a@ =~= b@);
    true
}

/// Runs the key pipeline once on fresh material (derive a key-encryption key,
/// wrap a new data key, unwrap it, compare) and reports the outcome.
pub fn test_encryption() -> (r: CommandResult<String>)
    ensures
        r.success,
        r.error is None,
        r.data is Some && r.data->0@ == "Encryption test passed"@,
{
    let password = "test_password_for_crypto_check";
    let salt = generate_salt();
    let dek_bytes = generate_dek();
    proof {
        reveal_strlit("test_password_for_crypto_check");
        vstd::string::is_ascii_spec_bytes(password);
    }
    let kek = match derive_kek(password, &salt) {
        Ok(k) => k,
        Err(_) => {
            return CommandResult::error(String::from_str("Key derivation failed"));
        },
    };
    let encrypted_dek = match encrypt_dek(&kek, &dek_bytes) {
        Ok(w) => w,
        Err(_) => {
            return CommandResult::error(String::from_str("Encryption failed"));
        },
    };
    match decrypt_dek(&kek, &encrypted_dek) {
        Ok(decrypted_dek) => {
            if same_key(&decrypted_dek, &dek_bytes) {
                CommandResult::success(String::from_str("Encryption test passed"))
            } else {
                CommandResult::error(
                    String::from_str("Encryption test failed: decrypted data mismatch"),
                )
            }
        },
        Err(_) => CommandResult::error(String::from_str("Decryption failed")),
    }
}

} // verus!
