//! Protected-secret core of a local credential vault: key derivation, envelope
//! encryption of the data key, the vault-metadata record and the lock/unlock
//! lifecycle.

pub mod commands;
pub mod crypto;
pub mod encoding;
pub mod metadata;
pub mod registry;
pub mod vault;
