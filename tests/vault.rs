use vault_core::metadata::{DatabaseError, MetadataStore};
use vault_core::registry::ManagerRegistry;
use vault_core::vault::{VaultError, VaultManager, VaultState};

fn create_test_vault_manager() -> VaultManager {
    VaultManager::new(MetadataStore::new(None))
}

#[test]
fn vault_test_vault_initialization() {
    let mut manager = create_test_vault_manager();

    let status = manager.get_status().unwrap();
    assert_eq!(status.state, VaultState::Uninitialized);
    assert!(!status.is_initialized);

    let password = "test_password_123";
    manager.initialize_vault(password).unwrap();

    let status = manager.get_status().unwrap();
    assert_eq!(status.state, VaultState::Unlocked);
    assert!(status.is_initialized);
    assert!(manager.is_unlocked());
}

#[test]
fn test_vault_unlock_lock_cycle() {
    let mut manager = create_test_vault_manager();

    let password = "test_password_123";
    manager.initialize_vault(password).unwrap();

    manager.lock_vault().unwrap();
    assert!(!manager.is_unlocked());

    let status = manager.get_status().unwrap();
    assert_eq!(status.state, VaultState::Locked);

    manager.unlock_vault(password).unwrap();
    assert!(manager.is_unlocked());

    let status = manager.get_status().unwrap();
    assert_eq!(status.state, VaultState::Unlocked);
}

#[test]
fn test_wrong_password_fails() {
    let mut manager = create_test_vault_manager();

    let password = "test_password_123";
    manager.initialize_vault(password).unwrap();
    manager.lock_vault().unwrap();

    let result = manager.unlock_vault("wrong_password");
    assert!(matches!(result, Err(VaultError::InvalidMasterPassword)));
    assert!(!manager.is_unlocked());
}

#[test]
fn test_password_validation() {
    let mut manager = create_test_vault_manager();

    let result = manager.initialize_vault("");
    assert!(result.is_err());

    let result = manager.initialize_vault("123");
    assert!(result.is_err());

    let result = manager.initialize_vault("valid_password_123");
    assert!(result.is_ok());
}

#[test]
fn test_change_master_password() {
    let mut manager = create_test_vault_manager();

    let old_password = "old_password_123";
    let new_password = "new_password_456";

    manager.initialize_vault(old_password).unwrap();

    manager.change_master_password(old_password, new_password).unwrap();

    manager.lock_vault().unwrap();
    manager.unlock_vault(new_password).unwrap();
    assert!(manager.is_unlocked());
}

#[test]
fn change_master_password_retires_old_password() {
    let mut manager = create_test_vault_manager();

    let old_password = "old_password_123";
    let new_password = "new_password_456";

    manager.initialize_vault(old_password).unwrap();
    manager.change_master_password(old_password, new_password).unwrap();

    manager.lock_vault().unwrap();
    let result = manager.unlock_vault(old_password);
    assert!(matches!(result, Err(VaultError::InvalidMasterPassword)));
    assert!(!manager.is_unlocked());
}

#[test]
fn vault_test_double_initialization_fails() {
    let mut manager = create_test_vault_manager();

    let password = "test_password_123";
    manager.initialize_vault(password).unwrap();

    let result = manager.initialize_vault("another_password");
    assert!(result.is_err());
}

#[test]
fn end_to_end_status_sequence() {
    let mut manager = create_test_vault_manager();
    manager.initialize_vault("CorrectHorse9").unwrap();
    let s = manager.get_status().unwrap();
    assert_eq!((s.state, s.is_initialized), (VaultState::Unlocked, true));

    manager.lock_vault().unwrap();
    let s = manager.get_status().unwrap();
    assert_eq!((s.state, s.is_initialized), (VaultState::Locked, true));

    let r = manager.unlock_vault("wrong");
    assert!(matches!(r, Err(VaultError::InvalidMasterPassword)));
    let s = manager.get_status().unwrap();
    assert_eq!((s.state, s.is_initialized), (VaultState::Locked, true));

    manager.unlock_vault("CorrectHorse9").unwrap();
    let s = manager.get_status().unwrap();
    assert_eq!((s.state, s.is_initialized), (VaultState::Unlocked, true));
    assert_eq!(s.version, Some(1));
    assert!(s.created_at.is_some());
}

#[test]
fn second_initialize_reports_already_initialized_and_keeps_state() {
    let mut manager = create_test_vault_manager();
    manager.initialize_vault("first_password").unwrap();
    let r = manager.initialize_vault("second_password");
    assert!(matches!(
        r,
        Err(VaultError::Database(DatabaseError::VaultAlreadyInitialized))
    ));
    assert!(manager.is_unlocked());
    manager.lock_vault().unwrap();
    let r = manager.initialize_vault("second_password");
    assert!(matches!(
        r,
        Err(VaultError::Database(DatabaseError::VaultAlreadyInitialized))
    ));
    assert_eq!(manager.get_status().unwrap().state, VaultState::Locked);
}

#[test]
fn short_password_is_a_validation_error() {
    let mut manager = create_test_vault_manager();
    assert!(matches!(
        manager.initialize_vault("1234567"),
        Err(VaultError::PasswordValidation(_))
    ));
    assert_eq!(manager.get_status().unwrap().state, VaultState::Uninitialized);
}

#[test]
fn lock_is_idempotent_in_every_state() {
    let mut manager = create_test_vault_manager();
    assert!(manager.lock_vault().is_ok());
    assert!(manager.lock_vault().is_ok());
    assert_eq!(manager.get_status().unwrap().state, VaultState::Uninitialized);
    manager.initialize_vault("some_password").unwrap();
    assert!(manager.lock_vault().is_ok());
    assert!(manager.lock_vault().is_ok());
    assert!(manager.shutdown().is_ok());
    assert_eq!(manager.get_status().unwrap().state, VaultState::Locked);
}

#[test]
fn unlock_errors_follow_state() {
    let mut manager = create_test_vault_manager();
    assert!(matches!(manager.unlock_vault("whatever1"), Err(VaultError::VaultNotInitialized)));
    manager.initialize_vault("some_password").unwrap();
    assert!(matches!(manager.unlock_vault("some_password"), Err(VaultError::VaultAlreadyUnlocked)));
    manager.lock_vault().unwrap();
    assert!(matches!(
        manager.unlock_vault(""),
        Err(VaultError::Crypto(vault_core::crypto::CryptoError::KeyDerivation(_)))
    ));
    assert!(!manager.is_unlocked());
}

#[test]
fn storage_handle_only_while_unlocked() {
    let mut manager = create_test_vault_manager();
    assert!(matches!(manager.get_database(), Err(VaultError::VaultLocked)));
    manager.initialize_vault("some_password").unwrap();
    let db = manager.get_database().unwrap();
    assert!(db.is_open());
    assert!(db.is_initialized());
    manager.lock_vault().unwrap();
    assert!(matches!(manager.get_database(), Err(VaultError::VaultLocked)));
}

#[test]
fn change_password_requires_unlocked_vault_and_current_password() {
    let mut manager = create_test_vault_manager();
    manager.initialize_vault("old_password").unwrap();
    assert!(matches!(
        manager.change_master_password("not_the_password", "new_password"),
        Err(VaultError::InvalidMasterPassword)
    ));
    assert!(matches!(
        manager.change_master_password("old_password", "short"),
        Err(VaultError::PasswordValidation(_))
    ));
    manager.lock_vault().unwrap();
    assert!(matches!(
        manager.change_master_password("old_password", "new_password"),
        Err(VaultError::VaultLocked)
    ));
}

#[test]
fn change_password_replaces_salt_and_wrapping_only() {
    let mut manager = create_test_vault_manager();
    manager.initialize_vault("old_password").unwrap();
    let before = manager.get_database().unwrap().load_vault_meta().unwrap().clone();
    manager.change_master_password("old_password", "new_password").unwrap();
    assert!(manager.is_unlocked());
    let db = manager.get_database().unwrap();
    let after = db.load_vault_meta().unwrap();
    assert_ne!(after.salt, before.salt);
    assert_ne!(after.encrypted_dek.nonce, before.encrypted_dek.nonce);
    assert_ne!(after.encrypted_dek.ciphertext, before.encrypted_dek.ciphertext);
    assert_eq!(after.created_at, before.created_at);
    assert_eq!(after.version, before.version);
    assert!(db.updated_at().is_some());
    assert!(db.is_open());
}

#[test]
fn restarted_process_sees_locked_vault() {
    let mut manager = create_test_vault_manager();
    manager.initialize_vault("old_password").unwrap();
    let record = manager.get_database().unwrap().load_vault_meta().unwrap().clone();

    let mut restarted = VaultManager::new(MetadataStore::new(Some(record)));
    assert!(matches!(restarted.unlock_vault("old_password"), Err(VaultError::VaultNotInitialized)));
    assert_eq!(restarted.get_status().unwrap().state, VaultState::Locked);
    restarted.unlock_vault("old_password").unwrap();
    assert!(restarted.is_unlocked());
}

#[test]
fn registry_registers_once() {
    let mut registry = ManagerRegistry::new();
    assert!(registry.get().is_err());
    registry.register(create_test_vault_manager()).unwrap();
    let second = registry.register(create_test_vault_manager());
    assert!(matches!(second, Err(VaultError::Database(DatabaseError::InvalidConfig(_)))));
    let manager = registry.get_mut().unwrap();
    manager.initialize_vault("some_password").unwrap();
    assert!(registry.get().unwrap().is_unlocked());
}

#[test]
fn record_fields_survive_password_change() {
    let mut manager = create_test_vault_manager();
    manager.initialize_vault("old_password").unwrap();
    let sealed = manager.get_database().unwrap().encrypt_data("card 4111").unwrap();
    manager.change_master_password("old_password", "new_password").unwrap();
    manager.lock_vault().unwrap();
    manager.unlock_vault("new_password").unwrap();
    let opened = manager.get_database().unwrap().decrypt_data(&sealed).unwrap();
    assert_eq!(opened, "card 4111");
}
