//! Cryptographic operations.
pub mod secure_string;

pub use secure_string::{SecureBytes, SecureString};
pub mod cipher;
pub mod kdf;
pub mod keyfile;

pub use cipher::{EncryptedPayload, EncryptionMethod, decrypt, decrypt_with_method, encrypt, encrypt_with_method};
pub use kdf::{Argon2Params, derive_key, generate_salt, hash_security_answer, verify_security_answer};
pub use keyfile::KeyFile;
