//! Key files: extra secret material that a vault may require besides its
//! password.
use vstd::prelude::*;

use crate::crypto::kdf::random_array;
use crate::crypto::secure_string::zeroize_bytes;
use crate::error::{Error, Result};

verus! {

/// Size of a generated key file in bytes (256 bits).
pub const KEYFILE_SIZE: usize = 32;

/// Smallest accepted key file, in bytes.
pub const KEYFILE_MIN_SIZE: usize = 8;

/// Largest size a key file path may point at, in bytes (10 MiB).
pub const KEYFILE_MAX_SIZE: u64 = 10485760;

/// A key file's content.
#[derive(Debug, Clone)]
pub struct KeyFile {
    data: Vec<u8>,
}

impl View for KeyFile {
    type V = Seq<u8>;

    closed spec fn view(&self) -> Seq<u8> {
        self.data@
    }
}

/// The reason a key file's content is refused, if it is.
pub open spec fn keyfile_rejection(data: Seq<u8>) -> Option<Seq<char>> {
    if data.len() == 0 {
        Some("Key file is empty"@)
    } else if data.len() < KEYFILE_MIN_SIZE {
        Some("Key file must be at least 8 bytes"@)
    } else {
        None
    }
}

impl KeyFile {
    /// A new random key file of `KEYFILE_SIZE` bytes.
    pub fn generate() -> (r: KeyFile)
        ensures
            r@.len() == KEYFILE_SIZE,
    {
        let bytes = random_array::<32>();
        let data = vstd::slice::slice_to_vec(&bytes);
        KeyFile { data }
    }

    /// Accepts the content read from a key file: it must hold at least
    /// eight bytes.
    pub fn from_bytes(data: Vec<u8>) -> (r: Result<KeyFile>)
        ensures
            match r {
                Ok(k) => keyfile_rejection(data@) is None && k@ == data@,
                Err(e) => keyfile_rejection(data@) matches Some(m)
                    && e matches Error::InvalidKeyFile(s) && s@ == m,
            },
    {
        proof {
            reveal_strlit("Key file is empty");
            reveal_strlit("Key file must be at least 8 bytes");
        }
        if data.len() == 0 {
            return Err(Error::InvalidKeyFile(String::from_str("Key file is empty")));
        }
        if data.len() < KEYFILE_MIN_SIZE {
            return Err(Error::InvalidKeyFile(String::from_str("Key file must be at least 8 bytes")));
        }
        Ok(KeyFile { data })
    }

    /// The content.
    pub fn as_bytes(&self) -> (r: &[u8])
        ensures
            r@ == self@,
    {
        self.data.as_slice()
    }

    /// Size in bytes.
    pub fn len(&self) -> (r: usize)
        ensures
            r == self@.len(),
    {
        self.data.len()
    }

    /// Whether the content is empty.
    pub fn is_empty(&self) -> (r: bool)
        ensures
            r == (self@.len() == 0),
    {
        self.data.len() == 0
    }

    /// Overwrites the content with zeros and empties it.
    pub fn wipe(&mut self)
        ensures
            final(self)@ == Seq::<u8>::empty(),
    {
        zeroize_bytes(&mut self.data)
    }
}

/// Whether a regular file of `size` bytes is a plausible key file.
pub fn keyfile_size_acceptable(size: u64) -> (r: bool)
    ensures
        r == (KEYFILE_MIN_SIZE <= size && size <= KEYFILE_MAX_SIZE),
{
    size >= 8 && size <= KEYFILE_MAX_SIZE
}

} // verus!
