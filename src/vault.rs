//! The vault lifecycle: initialize, unlock, lock, change of master password
//! and status, over the metadata store and the in-memory data key.

use vstd::prelude::*;
use vstd::string::{StrSliceExecFns, StringSliceAdditionalSpecFns};

use crate::crypto::{
    decrypt_dek, derivable, derive_kek, encrypt_dek, generate_dek, generate_salt, kek_of,
    unwrap_spec, CryptoError, SecureDek, DEK_SIZE,
};
use crate::metadata::{field_plaintext, DatabaseError, MetaView, MetadataStore, StoreView, VaultMeta};

verus! {

/// Minimum length of a master password, in characters.
pub const MIN_PASSWORD_CHARS: usize = 8;

/// Vault-related errors.
#[derive(Debug, Clone)]
pub enum VaultError {
    Database(DatabaseError),
    Crypto(CryptoError),
    VaultLocked,
    VaultAlreadyUnlocked,
    InvalidMasterPassword,
    VaultNotInitialized,
    PasswordValidation(String),
}

/// Vault lifecycle state.
#[derive(Debug, Clone, Copy, PartialEq, Eq, Structural)]
pub enum VaultState {
    Uninitialized,
    Locked,
    Unlocked,
}

/// Vault status for the front end.
#[derive(Debug, Clone, Copy)]
pub struct VaultStatus {
    pub state: VaultState,
    pub is_initialized: bool,
    pub created_at: Option<i64>,
    pub version: Option<i32>,
}

/// The mathematical content of a vault manager.
pub struct VaultView {
    pub state: VaultState,
    /// The data key held in memory.
    pub dek: Option<Seq<u8>>,
    pub store: StoreView,
}

/// The master-password policy: at least eight characters.
pub open spec fn password_valid(password: Seq<char>) -> bool {
    password.len() >= MIN_PASSWORD_CHARS
}

/// The data key that a password unwraps from a metadata record.
pub open spec fn password_unwraps(password: Seq<u8>, meta: MetaView) -> Option<Seq<u8>> {
    unwrap_spec(kek_of(password, meta.salt), meta.wrapped)
}

/// The manager's invariant: the data key is in memory exactly while the vault
/// is unlocked, and then the open session holds the same key.
pub open spec fn vault_wf(v: VaultView) -> bool {
    &&& (v.state == VaultState::Unlocked) <==> v.dek is Some
    &&& v.state == VaultState::Unlocked ==> {
        &&& v.store.meta is Some
        &&& v.store.open
        &&& v.store.dek == v.dek
        &&& v.dek->0.len() == DEK_SIZE
    }
    &&& v.state == VaultState::Locked ==> v.store.meta is Some && !v.store.open
        && v.store.dek is None
    &&& v.state == VaultState::Uninitialized ==> !v.store.open && v.store.dek is None
}

/// The vault after `lock`.
pub open spec fn locked(v: VaultView) -> VaultView {
    if v.state == VaultState::Unlocked {
        VaultView {
            state: VaultState::Locked,
            dek: None,
            store: StoreView { open: false, dek: None, ..v.store },
        }
    } else {
        v
    }
}

/// Whether `unlock` with this password (as UTF-8 bytes) succeeds.
pub open spec fn unlock_succeeds(v: VaultView, password: Seq<u8>) -> bool {
    &&& v.state == VaultState::Locked
    &&& v.store.meta is Some
    &&& derivable(password)
    &&& password_unwraps(password, v.store.meta->0) is Some
}

/// The vault after a successful `unlock`.
pub open spec fn unlocked(v: VaultView, password: Seq<u8>) -> VaultView {
    let dek = password_unwraps(password, v.store.meta->0);
    VaultView { state: VaultState::Unlocked, dek, store: StoreView { open: true, dek, ..v.store } }
}

/// The error `unlock` reports when it does not succeed.
pub open spec fn unlock_error(v: VaultView, password: Seq<u8>, e: VaultError) -> bool {
    match v.state {
        VaultState::Uninitialized => e is VaultNotInitialized,
        VaultState::Unlocked => e is VaultAlreadyUnlocked,
        VaultState::Locked => if v.store.meta is None {
            e is Database && e->Database_0 is VaultNotInitialized
        } else if !derivable(password) {
            e is Crypto && e->Crypto_0 is KeyDerivation
        } else {
            e is InvalidMasterPassword
        },
    }
}

/// Whether `initialize_vault` with this password succeeds.
pub open spec fn initialize_succeeds(v: VaultView, password: Seq<char>, bytes: Seq<u8>) -> bool {
    &&& password_valid(password)
    &&& v.state == VaultState::Uninitialized
    &&& v.store.meta is None
    &&& derivable(bytes)
}

/// A vault freshly created with this password: unlocked, in the current
/// format, holding in memory the key that the password unwraps from the
/// record.
pub open spec fn initialized_with(v: VaultView, password: Seq<u8>) -> bool {
    &&& vault_wf(v)
    &&& v.state == VaultState::Unlocked
    &&& v.store.meta is Some
    &&& v.store.meta->0.version == crate::metadata::VAULT_FORMAT_VERSION
    &&& password_unwraps(password, v.store.meta->0) == v.dek
}

/// The error `initialize_vault` reports when it does not succeed.
pub open spec fn initialize_error(v: VaultView, password: Seq<char>, e: VaultError) -> bool {
    if !password_valid(password) {
        e is PasswordValidation
    } else if v.state != VaultState::Uninitialized || v.store.meta is Some {
        e is Database && e->Database_0 is VaultAlreadyInitialized
    } else {
        e is Crypto && e->Crypto_0 is KeyDerivation
    }
}

/// Whether `change_master_password` succeeds.
pub open spec fn change_succeeds(
    v: VaultView,
    current: Seq<u8>,
    new_password: Seq<char>,
    new_bytes: Seq<u8>,
) -> bool {
    &&& password_valid(new_password)
    &&& v.state == VaultState::Unlocked
    &&& v.store.meta is Some
    &&& derivable(current)
    &&& password_unwraps(current, v.store.meta->0) is Some
    &&& derivable(new_bytes)
}

/// `after` is `before` with the same in-memory data key re-wrapped under a
/// new password: a new salt and wrapped key in the record, the rest kept.
pub open spec fn rewrapped(before: VaultView, after: VaultView, new_password: Seq<u8>) -> bool {
    &&& after.state == before.state
    &&& after.dek == before.dek
    &&& after.store.open == before.store.open
    &&& after.store.dek == before.store.dek
    &&& after.store.updated_at is Some
    &&& after.store.meta is Some
    &&& after.store.meta->0.created_at == before.store.meta->0.created_at
    &&& after.store.meta->0.version == before.store.meta->0.version
    &&& password_unwraps(new_password, after.store.meta->0) == before.dek
}

/// The error `change_master_password` reports when it does not succeed.
pub open spec fn change_error(
    v: VaultView,
    current: Seq<u8>,
    new_password: Seq<char>,
    e: VaultError,
) -> bool {
    if !password_valid(new_password) {
        e is PasswordValidation
    } else if v.state != VaultState::Unlocked {
        e is VaultLocked
    } else if v.store.meta is None {
        e is Database && e->Database_0 is VaultNotInitialized
    } else if !derivable(current) {
        e is Crypto && e->Crypto_0 is KeyDerivation
    } else if password_unwraps(current, v.store.meta->0) is None {
        e is InvalidMasterPassword
    } else {
        e is Crypto && e->Crypto_0 is KeyDerivation
    }
}

/// The state after a status query: a vault found on disk but never touched in
/// this process counts as locked.
pub open spec fn observed_state(v: VaultView) -> VaultState {
    if v.state == VaultState::Uninitialized && v.store.meta is Some {
        VaultState::Locked
    } else {
        v.state
    }
}

/// A vault created with a password, then locked, unlocks again with that
/// password and holds the same data key as before.
pub proof fn lemma_unlock_after_lock(v: VaultView, password: Seq<u8>)
    requires
        initialized_with(v, password),
        derivable(password),
    ensures
        unlock_succeeds(locked(v), password),
        unlocked(locked(v), password).state == VaultState::Unlocked,
        unlocked(locked(v), password).dek == v.dek,
        vault_wf(unlocked(locked(v), password)),
{
}

/// After a vault is created with one password and locked, another password
/// whose key does not open the stored wrapping is refused with
/// `InvalidMasterPassword`, and the vault stays locked.
pub proof fn lemma_other_password_refused(v: VaultView, password: Seq<u8>, other: Seq<u8>)
    requires
        initialized_with(v, password),
        password != other,
        derivable(other),
        password_unwraps(other, v.store.meta->0) is None,
    ensures
        !unlock_succeeds(locked(v), other),
        locked(v).state == VaultState::Locked,
        forall|e: VaultError| unlock_error(locked(v), other, e) <==> e is InvalidMasterPassword,
{
}

/// A second `initialize_vault` on a created vault fails with
/// `VaultAlreadyInitialized` (for a password the policy accepts).
pub proof fn lemma_initialize_twice_refused(v: VaultView, password: Seq<u8>, other: Seq<char>, other_bytes: Seq<u8>)
    requires
        initialized_with(v, password),
        password_valid(other),
    ensures
        !initialize_succeeds(v, other, other_bytes),
        forall|e: VaultError| initialize_error(v, other, e) <==> (e is Database
            && e->Database_0 is VaultAlreadyInitialized),
{
}

/// Locking is idempotent, and does nothing to a vault that is not unlocked.
pub proof fn lemma_lock_idempotent(v: VaultView)
    requires
        vault_wf(v),
    ensures
        locked(locked(v)) == locked(v),
        v.state != VaultState::Unlocked ==> locked(v) == v,
        locked(v).state != VaultState::Unlocked,
        vault_wf(locked(v)),
{
}

/// After a change of master password and a lock, the new password unlocks
/// the vault to the same data key as before the change, so every record field
/// sealed before the change opens to the same text; the old password, when its
/// key does not open the new wrapping, is refused.
pub proof fn lemma_change_then_unlock(
    before: VaultView,
    after: VaultView,
    old_password: Seq<u8>,
    new_password: Seq<u8>,
)
    requires
        vault_wf(before),
        vault_wf(after),
        before.state == VaultState::Unlocked,
        rewrapped(before, after, new_password),
        derivable(new_password),
        derivable(old_password),
        password_unwraps(old_password, after.store.meta->0) is None,
    ensures
        unlock_succeeds(locked(after), new_password),
        unlocked(locked(after), new_password).dek == before.dek,
        forall|field: Seq<u8>|
            field_plaintext(unlocked(locked(after), new_password).store.dek->0, field)
                == #[trigger] field_plaintext(before.store.dek->0, field),
        !unlock_succeeds(locked(after), old_password),
        forall|e: VaultError| unlock_error(locked(after), old_password, e)
            <==> e is InvalidMasterPassword,
{
}

/// Owns the lifecycle state, the in-memory data key and the metadata store.
pub struct VaultManager {
    database: MetadataStore,
    dek: Option<SecureDek>,
    state: VaultState,
}

impl View for VaultManager {
    type V = VaultView;

    closed spec fn view(&self) -> VaultView {
        VaultView {
            state: self.state,
            dek: match self.dek {
                Some(d) => Some(d@),
                None => None,
            },
            store: self.database@,
        }
    }
}

impl VaultManager {
    pub open spec fn wf(&self) -> bool {
        vault_wf(self@)
    }

    /// A manager over a closed store, in state `Uninitialized` until a status
    /// query or an operation finds out more.
    pub fn new(database: MetadataStore) -> (r: VaultManager)
        requires
            !database@.open,
            database@.dek is None,
        ensures
            r.wf(),
            r@ == (VaultView { state: VaultState::Uninitialized, dek: None, store: database@ }),
    {
        VaultManager { database, dek: None, state: VaultState::Uninitialized }
    }

    /// Checks the master-password policy.
    fn validate_master_password(password: &str) -> (r: Result<(), VaultError>)
        ensures
            r is Ok <==> password_valid(password@),
            r is Err ==> r->Err_0 is PasswordValidation,
    {
        if password.is_empty() {
            return Err(VaultError::PasswordValidation(String::from_str("Master password cannot be empty")));
        }
        if password.unicode_len() < MIN_PASSWORD_CHARS {
            return Err(
                VaultError::PasswordValidation(
                    String::from_str("Master password must be at least 8 characters long"),
                ),
            );
        }
        Ok(())
    }

    /// The current status; a record found while the state is still
    /// `Uninitialized` moves the state to `Locked`.
    pub fn get_status(&mut self) -> (r: Result<VaultStatus, VaultError>)
        requires
            old(self).wf(),
        ensures
            final(self).wf(),
            final(self)@ == (VaultView { state: observed_state(old(self)@), ..old(self)@ }),
            r is Ok,
            r->Ok_0.state == observed_state(old(self)@),
            r->Ok_0.is_initialized == old(self)@.store.meta is Some,
            r->Ok_0.created_at == (match old(self)@.store.meta {
                Some(m) => Some(m.created_at),
                None => None::<i64>,
            }),
            r->Ok_0.version == (match old(self)@.store.meta {
                Some(m) => Some(m.version),
                None => None::<i32>,
            }),
    {
        let is_initialized = self.database.is_initialized();
        if self.state == VaultState::Uninitialized && is_initialized {
            self.state = VaultState::Locked;
        }
        let (created_at, version) = match self.database.load_vault_meta() {
            Ok(meta) => (Some(meta.created_at), Some(meta.version)),
            Err(_) => (None, None),
        };
        Ok(VaultStatus { state: self.state, is_initialized, created_at, version })
    }

    /// Creates the vault under a master password: a new salt and data key,
    /// the key wrapped under the password's key-encryption key, the record
    /// stored, and the vault left unlocked.
    pub fn initialize_vault(&mut self, master_password: &str) -> (r: Result<(), VaultError>)
        requires
            old(self).wf(),
        ensures
            final(self).wf(),
            r is Ok <==> initialize_succeeds(
                old(self)@,
                master_password@,
                master_password.spec_bytes(),
            ),
            r is Ok ==> initialized_with(final(self)@, master_password.spec_bytes()),
            r is Err ==> final(self)@ == old(self)@,
            r is Err ==> initialize_error(old(self)@, master_password@, r->Err_0),
    {
        Self::validate_master_password(master_password)?;
        if self.state != VaultState::Uninitialized || self.database.is_initialized() {
            return Err(VaultError::Database(DatabaseError::VaultAlreadyInitialized));
        }
        let salt = generate_salt();
        let dek = SecureDek::new(generate_dek());
        let kek = match derive_kek(master_password, &salt) {
            Ok(k) => k,
            Err(e) => {
                return Err(VaultError::Crypto(e));
            },
        };
        let encrypted_dek = match encrypt_dek(&kek, dek.as_bytes()) {
            Ok(w) => w,
            Err(e) => {
                return Err(VaultError::Crypto(e));
            },
        };
        let vault_meta = VaultMeta::new(salt, encrypted_dek);
        match self.database.initialize_vault(vault_meta, &dek) {
            Ok(()) => {},
            Err(e) => {
                return Err(VaultError::Database(e));
            },
        }
        proof {
            dek.lemma_view_len();
        }
        self.dek = Some(dek);
        self.state = VaultState::Unlocked;
        Ok(())
    }

    /// Unlocks the vault: the password's key-encryption key must unwrap the
    /// stored data key. A wrong password and a corrupted record are the same
    /// `InvalidMasterPassword` error, and the vault stays locked.
    pub fn unlock_vault(&mut self, master_password: &str) -> (r: Result<(), VaultError>)
        requires
            old(self).wf(),
        ensures
            final(self).wf(),
            r is Ok <==> unlock_succeeds(old(self)@, master_password.spec_bytes()),
            r is Ok ==> final(self)@ == unlocked(old(self)@, master_password.spec_bytes()),
            r is Err ==> final(self)@ == old(self)@,
            r is Err ==> unlock_error(old(self)@, master_password.spec_bytes(), r->Err_0),
    {
        if self.state == VaultState::Uninitialized {
            return Err(VaultError::VaultNotInitialized);
        }
        if self.state == VaultState::Unlocked {
            return Err(VaultError::VaultAlreadyUnlocked);
        }
        let dek_bytes = {
            let vault_meta = match self.database.load_vault_meta() {
                Ok(m) => m,
                Err(e) => {
                    return Err(VaultError::Database(e));
                },
            };
            let kek = match derive_kek(master_password, &vault_meta.salt) {
                Ok(k) => k,
                Err(e) => {
                    return Err(VaultError::Crypto(e));
                },
            };
            match decrypt_dek(&kek, &vault_meta.encrypted_dek) {
                Ok(d) => d,
                Err(_) => {
                    return Err(VaultError::InvalidMasterPassword);
                },
            }
        };
        let dek = SecureDek::new(dek_bytes);
        match self.database.open_with_dek(&dek) {
            Ok(()) => {},
            Err(_) => {
                return Err(VaultError::InvalidMasterPassword);
            },
        }
        self.dek = Some(dek);
        self.state = VaultState::Unlocked;
        Ok(())
    }

    /// Locks the vault: closes the session and wipes the in-memory data key.
    /// Does nothing unless the vault is unlocked, and never fails.
    pub fn lock_vault(&mut self) -> (r: Result<(), VaultError>)
        requires
            old(self).wf(),
        ensures
            final(self).wf(),
            r is Ok,
            final(self)@ == locked(old(self)@),
    {
        if self.state != VaultState::Unlocked {
            return Ok(());
        }
        self.database.close();
        self.dek = None;
        self.state = VaultState::Locked;
        Ok(())
    }

    /// Changes the master password. The current password is checked against
    /// the stored record (not the key in memory); then the in-memory data key
    /// is wrapped again under a new salt and the new password's key.
    pub fn change_master_password(&mut self, current_password: &str, new_password: &str) -> (r: Result<(), VaultError>)
        requires
            old(self).wf(),
        ensures
            final(self).wf(),
            r is Ok <==> change_succeeds(
                old(self)@,
                current_password.spec_bytes(),
                new_password@,
                new_password.spec_bytes(),
            ),
            r is Ok ==> rewrapped(old(self)@, final(self)@, new_password.spec_bytes()),
            r is Err ==> final(self)@ == old(self)@,
            r is Err ==> change_error(
                old(self)@,
                current_password.spec_bytes(),
                new_password@,
                r->Err_0,
            ),
    {
        Self::validate_master_password(new_password)?;
        if self.state != VaultState::Unlocked {
            return Err(VaultError::VaultLocked);
        }
        {
            let vault_meta = match self.database.load_vault_meta() {
                Ok(m) => m,
                Err(e) => {
                    return Err(VaultError::Database(e));
                },
            };
            let current_kek = match derive_kek(current_password, &vault_meta.salt) {
                Ok(k) => k,
                Err(e) => {
                    return Err(VaultError::Crypto(e));
                },
            };
            match decrypt_dek(&current_kek, &vault_meta.encrypted_dek) {
                Ok(_) => {},
                Err(_) => {
                    return Err(VaultError::InvalidMasterPassword);
                },
            }
        }
        let dek = match &self.dek {
            Some(d) => d.duplicate(),
            None => {
                return Err(VaultError::VaultLocked);
            },
        };
        let new_salt = generate_salt();
        let new_kek = match derive_kek(new_password, &new_salt) {
            Ok(k) => k,
            Err(e) => {
                return Err(VaultError::Crypto(e));
            },
        };
        let new_encrypted_dek = match encrypt_dek(&new_kek, dek.as_bytes()) {
            Ok(w) => w,
            Err(e) => {
                return Err(VaultError::Crypto(e));
            },
        };
        let now = crate::metadata::unix_now();
        match self.database.update_wrapping(new_salt, new_encrypted_dek, now) {
            Ok(()) => Ok(()),
            Err(e) => Err(VaultError::Database(e)),
        }
    }

    /// The storage handle, only while unlocked.
    pub fn get_database(&self) -> (r: Result<&MetadataStore, VaultError>)
        ensures
            r is Ok <==> self@.state == VaultState::Unlocked,
            r is Ok ==> r->Ok_0@ == self@.store,
            r is Err ==> r->Err_0 is VaultLocked,
    {
        if self.state != VaultState::Unlocked {
            return Err(VaultError::VaultLocked);
        }
        Ok(&self.database)
    }

    /// Whether the vault is unlocked.
    pub fn is_unlocked(&self) -> (r: bool)
        ensures
            r == (self@.state == VaultState::Unlocked),
    {
        self.state == VaultState::Unlocked
    }

    /// Locks the vault on the way out of the process.
    pub fn shutdown(&mut self) -> (r: Result<(), VaultError>)
        requires
            old(self).wf(),
        ensures
            final(self).wf(),
            r is Ok,
            final(self)@ == locked(old(self)@),
    {
        self.lock_vault()
    }
}

} // verus!
