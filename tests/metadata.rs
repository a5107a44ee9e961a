use vault_core::crypto::{derive_kek, encrypt_dek, generate_dek, generate_salt, SecureDek};
use vault_core::metadata::{DatabaseError, MetadataStore, VaultMeta, VAULT_FORMAT_VERSION};

fn fresh_meta(dek: &[u8; 32]) -> VaultMeta {
    let salt = generate_salt();
    let kek = derive_kek("test_password_123", &salt).unwrap();
    let encrypted_dek = encrypt_dek(&kek, dek).unwrap();
    VaultMeta::new(salt, encrypted_dek)
}

#[test]
fn database_test_vault_initialization() {
    let mut db = MetadataStore::new(None);
    assert!(!db.is_initialized());

    let dek = generate_dek();
    let secure_dek = SecureDek::new(dek);
    let vault_meta = fresh_meta(&dek);

    db.initialize_vault(vault_meta.clone(), &secure_dek).unwrap();
    assert!(db.is_initialized());

    let loaded_meta = db.load_vault_meta().unwrap();
    assert_eq!(loaded_meta.salt, vault_meta.salt);
    assert_eq!(loaded_meta.version, vault_meta.version);
}

#[test]
fn test_vault_open_close_cycle() {
    let mut db = MetadataStore::new(None);
    let dek = generate_dek();
    let secure_dek = SecureDek::new(dek);
    let vault_meta = fresh_meta(&dek);

    db.initialize_vault(vault_meta, &secure_dek).unwrap();
    assert!(db.is_open());

    db.close();
    assert!(!db.is_open());

    let result = db.open_with_dek(&secure_dek);
    assert!(result.is_ok());
    assert!(db.is_open());
}

#[test]
fn database_test_double_initialization_fails() {
    let mut db = MetadataStore::new(None);
    let dek = generate_dek();
    let secure_dek = SecureDek::new(dek);
    let vault_meta = fresh_meta(&dek);

    db.initialize_vault(vault_meta.clone(), &secure_dek).unwrap();

    let vault_meta2 = VaultMeta::new(vault_meta.salt, vault_meta.encrypted_dek.clone());
    let result = db.initialize_vault(vault_meta2, &secure_dek);
    assert!(matches!(result, Err(DatabaseError::VaultAlreadyInitialized)));
}

#[test]
fn open_without_record_fails() {
    let mut db = MetadataStore::new(None);
    let key = SecureDek::new([1u8; 32]);
    assert!(matches!(db.open_with_dek(&key), Err(DatabaseError::VaultNotInitialized)));
    assert!(!db.is_open());
    assert!(matches!(db.load_vault_meta(), Err(DatabaseError::VaultNotInitialized)));
}

#[test]
fn new_record_is_current_version_and_recent() {
    let dek = [4u8; 32];
    let meta = fresh_meta(&dek);
    assert_eq!(meta.version, VAULT_FORMAT_VERSION);
    assert_eq!(meta.version, 1);
    // Later than 2020-01-01.
    assert!(meta.created_at > 1_577_836_800);
}

#[test]
fn row_round_trip_keeps_every_field() {
    let dek = [4u8; 32];
    let meta = fresh_meta(&dek);
    let row = VaultMeta::from_row(
        &meta.salt,
        &meta.encrypted_dek.to_bytes(),
        meta.created_at,
        meta.version,
    )
    .unwrap();
    assert_eq!(row.salt, meta.salt);
    assert_eq!(row.encrypted_dek.nonce, meta.encrypted_dek.nonce);
    assert_eq!(row.encrypted_dek.ciphertext, meta.encrypted_dek.ciphertext);
    assert_eq!(row.created_at, meta.created_at);
    assert_eq!(row.version, meta.version);
}

#[test]
fn malformed_rows_are_invalid_config() {
    let wrapped = vec![0u8; 60];
    assert!(matches!(
        VaultMeta::from_row(&[0u8; 31], &wrapped, 0, 1),
        Err(DatabaseError::InvalidConfig(_))
    ));
    assert!(matches!(
        VaultMeta::from_row(&[0u8; 32], &wrapped[..59], 0, 1),
        Err(DatabaseError::InvalidConfig(_))
    ));
    assert!(VaultMeta::from_row(&[0u8; 32], &wrapped, 0, 1).is_ok());
}

#[test]
fn update_wrapping_keeps_creation_time_and_version() {
    let dek = [4u8; 32];
    let meta = fresh_meta(&dek);
    let created_at = meta.created_at;
    let mut db = MetadataStore::new(Some(meta));
    assert!(db.is_initialized());
    assert!(!db.is_open());
    let wrapped = vault_core::crypto::EncryptedDek::from_bytes(&[9u8; 60]).unwrap();
    db.update_wrapping([8u8; 32], wrapped, 1234).unwrap();
    let m = db.load_vault_meta().unwrap();
    assert_eq!(m.salt, [8u8; 32]);
    assert_eq!(m.encrypted_dek.ciphertext, vec![9u8; 48]);
    assert_eq!(m.created_at, created_at);
    assert_eq!(m.version, 1);
    assert_eq!(db.updated_at(), Some(1234));
}

#[test]
fn test_application_level_encryption() {
    let mut db = MetadataStore::new(None);
    let dek = generate_dek();
    let secure_dek = SecureDek::new(dek);
    let vault_meta = fresh_meta(&dek);

    db.initialize_vault(vault_meta, &secure_dek).unwrap();

    let test_data = "This is sensitive password data";
    let encrypted = db.encrypt_data(test_data).unwrap();
    let decrypted = db.decrypt_data(&encrypted).unwrap();

    assert_eq!(test_data, decrypted);
    assert_ne!(test_data.as_bytes(), &encrypted[..]);
}

#[test]
fn field_encryption_needs_open_session_and_intact_data() {
    let key = SecureDek::new([6u8; 32]);
    let mut db = MetadataStore::new(None);
    assert!(matches!(db.encrypt_data("x"), Err(DatabaseError::VaultNotInitialized)));
    assert!(matches!(db.decrypt_data(&[0u8; 40]), Err(DatabaseError::VaultNotInitialized)));

    let meta = VaultMeta::from_row(&[0u8; 32], &[0u8; 60], 0, 1).unwrap();
    db.initialize_vault(meta, &key).unwrap();
    let sealed = db.encrypt_data("héllo").unwrap();
    assert_eq!(sealed.len(), 12 + "héllo".len() + 16);
    assert_eq!(db.decrypt_data(&sealed).unwrap(), "héllo");

    let mut tampered = sealed.clone();
    tampered[14] ^= 1;
    assert!(matches!(
        db.decrypt_data(&tampered),
        Err(DatabaseError::Crypto(vault_core::crypto::CryptoError::Decryption(_)))
    ));
    assert!(matches!(
        db.decrypt_data(&sealed[..11]),
        Err(DatabaseError::Crypto(vault_core::crypto::CryptoError::Decryption(_)))
    ));

    db.close();
    assert!(matches!(db.decrypt_data(&sealed), Err(DatabaseError::VaultNotInitialized)));
    db.open_with_dek(&key).unwrap();
    assert_eq!(db.decrypt_data(&sealed).unwrap(), "héllo");
}
