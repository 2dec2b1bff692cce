//! Error type shared by the library.
use vstd::prelude::*;

verus! {

/// Errors produced by the library.
#[derive(Debug, Clone, PartialEq, Eq)]
pub enum Error {
    /// Encryption could not be carried out.
    Encryption(String),
    /// Decryption failed (wrong key, tampered data, or invalid plaintext).
    Decryption,
    /// Key derivation failed.
    KeyDerivation(String),
    /// The key file is unusable.
    InvalidKeyFile(String),
    /// An item or a recovery setup is invalid.
    InvalidItem(String),
    /// A security question could not be answered.
    SecurityQuestionFailed,
    /// The clipboard is unavailable.
    Clipboard(String),
    /// A vault file is malformed or of an unsupported version.
    InvalidVaultFormat(String),
    /// A file could not be read.
    FileRead(String),
    /// A file could not be written.
    FileWrite(String),
    /// The configuration is unusable.
    Config(String),
    /// A value could not be serialized or parsed.
    Serialization(String),
}

/// Result alias used throughout the library.
pub type Result<T> = core::result::Result<T, Error>;

/// The text shown for an error.
pub open spec fn error_text(e: Error) -> Seq<char> {
    match e {
        Error::Encryption(m) => "Encryption failed: "@ + m@,
        Error::Decryption => "Decryption failed: wrong password or corrupted data"@,
        Error::KeyDerivation(m) => "Key derivation failed: "@ + m@,
        Error::InvalidKeyFile(m) => "Invalid keyfile: "@ + m@,
        Error::InvalidItem(m) => "Invalid item: "@ + m@,
        Error::SecurityQuestionFailed => "Security question verification failed"@,
        Error::Clipboard(m) => "Clipboard error: "@ + m@,
        Error::InvalidVaultFormat(m) => "Invalid vault format: "@ + m@,
        Error::FileRead(m) => "Failed to read file: "@ + m@,
        Error::FileWrite(m) => "Failed to write file: "@ + m@,
        Error::Config(m) => "Configuration error: "@ + m@,
        Error::Serialization(m) => "Serialization error: "@ + m@,
    }
}

/// `prefix` followed by `m`.
fn prefixed(prefix: &str, m: &String) -> (r: String)
    ensures
        r@ == prefix@ + m@,
{
    let mut r = String::from_str(prefix);
    r.append(m.as_str());
    r
}

impl Error {
    /// The text shown for the error.
    pub fn describe(&self) -> (r: String)
        ensures
            r@ == error_text(*self),
    {
        proof {
            reveal_strlit("Encryption failed: ");
            reveal_strlit("Decryption failed: wrong password or corrupted data");
            reveal_strlit("Key derivation failed: ");
            reveal_strlit("Invalid keyfile: ");
            reveal_strlit("Invalid item: ");
            reveal_strlit("Security question verification failed");
            reveal_strlit("Clipboard error: ");
            reveal_strlit("Invalid vault format: ");
            reveal_strlit("Failed to read file: ");
            reveal_strlit("Failed to write file: ");
            reveal_strlit("Configuration error: ");
            reveal_strlit("Serialization error: ");
        }
        match self {
            Error::Encryption(m) => prefixed("Encryption failed: ", m),
            Error::Decryption => String::from_str("Decryption failed: wrong password or corrupted data"),
            Error::KeyDerivation(m) => prefixed("Key derivation failed: ", m),
            Error::InvalidKeyFile(m) => prefixed("Invalid keyfile: ", m),
            Error::InvalidItem(m) => prefixed("Invalid item: ", m),
            Error::SecurityQuestionFailed => String::from_str("Security question verification failed"),
            Error::Clipboard(m) => prefixed("Clipboard error: ", m),
            Error::InvalidVaultFormat(m) => prefixed("Invalid vault format: ", m),
            Error::FileRead(m) => prefixed("Failed to read file: ", m),
            Error::FileWrite(m) => prefixed("Failed to write file: ", m),
            Error::Config(m) => prefixed("Configuration error: ", m),
            Error::Serialization(m) => prefixed("Serialization error: ", m),
        }
    }
}

} // verus!
