//! Authenticated encryption with AES-256-GCM or ChaCha20-Poly1305.
use vstd::prelude::*;
use aes_gcm::aead::{Aead, KeyInit};

use crate::crypto::kdf::{Argon2Params, random_array};
use crate::error::{Error, Result};

verus! {

/// The ciphertext (with tag) that AES-256-GCM produces for a key, a nonce and a
/// plaintext, or `None` when the cipher refuses the input.
pub uninterp spec fn aes256gcm_sealed(key: Seq<u8>, nonce: Seq<u8>, aad: Seq<u8>, plaintext: Seq<u8>) -> Option<Seq<u8>>;

/// The plaintext that AES-256-GCM recovers from a key, a nonce and a
/// ciphertext, or `None` when authentication fails.
pub uninterp spec fn aes256gcm_opened(key: Seq<u8>, nonce: Seq<u8>, aad: Seq<u8>, ciphertext: Seq<u8>) -> Option<Seq<u8>>;

/// The ciphertext (with tag) that ChaCha20-Poly1305 produces, or `None`.
pub uninterp spec fn chacha20poly1305_sealed(key: Seq<u8>, nonce: Seq<u8>, aad: Seq<u8>, plaintext: Seq<u8>) -> Option<Seq<u8>>;

/// The plaintext that ChaCha20-Poly1305 recovers, or `None`.
pub uninterp spec fn chacha20poly1305_opened(key: Seq<u8>, nonce: Seq<u8>, aad: Seq<u8>, ciphertext: Seq<u8>) -> Option<Seq<u8>>;

/// Encrypts with AES-256-GCM.
///
/// Trusted: `Aes256Gcm::new` and `Aead::encrypt` of the aes-gcm crate. The
/// contract names the ciphertext and claims the AEAD correctness property that
/// the crate documents: opening the ciphertext with the same key and nonce
/// yields the plaintext. The source refuses exactly a plaintext or associated
/// data longer than 2^36 bytes (`P_MAX`, `A_MAX`), and otherwise appends the
/// 16-byte tag to the encrypted plaintext.
#[verifier::external_body]
fn aes256gcm_encrypt(key: &[u8; 32], nonce: &[u8; 12], aad: &[u8], plaintext: &[u8]) -> (r: Option<Vec<u8>>)
    ensures
        r is Some <==> method_accepts(EncryptionMethod::Aes256Gcm, plaintext@.len(), aad@.len()),
        r matches Some(c) ==> c@.len() == plaintext@.len() + 16,
        match r {
            Some(c) => aes256gcm_sealed(key@, nonce@, aad@, plaintext@) == Some(c@)
                && aes256gcm_opened(key@, nonce@, aad@, c@) == Some(plaintext@),
            None => aes256gcm_sealed(key@, nonce@, aad@, plaintext@) is None,
        },
{
    let cipher = aes_gcm::Aes256Gcm::new(key.into());
    cipher.encrypt(aes_gcm::Nonce::from_slice(nonce), aes_gcm::aead::Payload { msg: plaintext, aad }).ok()
}

/// Decrypts with AES-256-GCM.
///
/// Trusted: `Aes256Gcm::new` and `Aead::decrypt` of the aes-gcm crate; the
/// result is the named opening of the ciphertext.
#[verifier::external_body]
fn aes256gcm_decrypt(key: &[u8; 32], nonce: &[u8; 12], aad: &[u8], ciphertext: &[u8]) -> (r: Option<Vec<u8>>)
    ensures
        match r {
            Some(p) => aes256gcm_opened(key@, nonce@, aad@, ciphertext@) == Some(p@),
            None => aes256gcm_opened(key@, nonce@, aad@, ciphertext@) is None,
        },
{
    let cipher = aes_gcm::Aes256Gcm::new(key.into());
    cipher.decrypt(aes_gcm::Nonce::from_slice(nonce), aes_gcm::aead::Payload { msg: ciphertext, aad }).ok()
}

/// Encrypts with ChaCha20-Poly1305.
///
/// Trusted: `ChaCha20Poly1305::new` and `Aead::encrypt` of the
/// chacha20poly1305 crate, with the same correctness claim as for AES-256-GCM.
/// The source refuses exactly a plaintext of `u32::MAX` or more 64-byte
/// blocks, and otherwise appends the 16-byte tag to the encrypted plaintext.
#[verifier::external_body]
fn chacha20poly1305_encrypt(key: &[u8; 32], nonce: &[u8; 12], aad: &[u8], plaintext: &[u8]) -> (r: Option<Vec<u8>>)
    ensures
        r is Some <==> method_accepts(EncryptionMethod::ChaCha20Poly1305, plaintext@.len(), aad@.len()),
        r matches Some(c) ==> c@.len() == plaintext@.len() + 16,
        match r {
            Some(c) => chacha20poly1305_sealed(key@, nonce@, aad@, plaintext@) == Some(c@)
                && chacha20poly1305_opened(key@, nonce@, aad@, c@) == Some(plaintext@),
            None => chacha20poly1305_sealed(key@, nonce@, aad@, plaintext@) is None,
        },
{
    let cipher = chacha20poly1305::ChaCha20Poly1305::new(key.into());
    cipher.encrypt(chacha20poly1305::Nonce::from_slice(nonce), chacha20poly1305::aead::Payload { msg: plaintext, aad }).ok()
}

/// Decrypts with ChaCha20-Poly1305.
///
/// Trusted: `ChaCha20Poly1305::new` and `Aead::decrypt` of the
/// chacha20poly1305 crate; the result is the named opening.
#[verifier::external_body]
fn chacha20poly1305_decrypt(key: &[u8; 32], nonce: &[u8; 12], aad: &[u8], ciphertext: &[u8]) -> (r: Option<Vec<u8>>)
    ensures
        match r {
            Some(p) => chacha20poly1305_opened(key@, nonce@, aad@, ciphertext@) == Some(p@),
            None => chacha20poly1305_opened(key@, nonce@, aad@, ciphertext@) is None,
        },
{
    let cipher = chacha20poly1305::ChaCha20Poly1305::new(key.into());
    cipher.decrypt(chacha20poly1305::Nonce::from_slice(nonce), chacha20poly1305::aead::Payload { msg: ciphertext, aad }).ok()
}

/// A fresh random 12-byte nonce.
pub(crate) fn random_nonce() -> (r: [u8; 12]) {
    random_array::<12>()
}

/// Supported vault encryption methods.
#[derive(Debug, Clone, Copy, PartialEq, Eq, Structural, Hash)]
pub enum EncryptionMethod {
    Aes256Gcm,
    ChaCha20Poly1305,
}

impl Default for EncryptionMethod {
    fn default() -> (r: EncryptionMethod)
        ensures
            r == EncryptionMethod::Aes256Gcm,
    {
        EncryptionMethod::Aes256Gcm
    }
}

/// Whether a method's cipher encrypts a plaintext and associated data of
/// these lengths: AES-256-GCM takes up to 2^36 bytes of each, ChaCha20-Poly1305
/// fewer than `u32::MAX` blocks of 64 bytes of plaintext.
pub open spec fn method_accepts(method: EncryptionMethod, plaintext_len: nat, aad_len: nat) -> bool {
    match method {
        EncryptionMethod::Aes256Gcm => plaintext_len <= 0x10_0000_0000 && aad_len <= 0x10_0000_0000,
        EncryptionMethod::ChaCha20Poly1305 => plaintext_len / 64 < 0xFFFF_FFFF,
    }
}

/// What a method's cipher produces for a key, nonce, associated data and
/// plaintext.
pub open spec fn sealed_with_aad(method: EncryptionMethod, key: Seq<u8>, nonce: Seq<u8>, aad: Seq<u8>, plaintext: Seq<u8>) -> Option<Seq<u8>> {
    match method {
        EncryptionMethod::Aes256Gcm => aes256gcm_sealed(key, nonce, aad, plaintext),
        EncryptionMethod::ChaCha20Poly1305 => chacha20poly1305_sealed(key, nonce, aad, plaintext),
    }
}

/// What a method's cipher recovers from a key, nonce, associated data and
/// ciphertext.
pub open spec fn opened_with_aad(method: EncryptionMethod, key: Seq<u8>, nonce: Seq<u8>, aad: Seq<u8>, ciphertext: Seq<u8>) -> Option<Seq<u8>> {
    match method {
        EncryptionMethod::Aes256Gcm => aes256gcm_opened(key, nonce, aad, ciphertext),
        EncryptionMethod::ChaCha20Poly1305 => chacha20poly1305_opened(key, nonce, aad, ciphertext),
    }
}

/// What a method's cipher produces with no associated data.
pub open spec fn sealed_with(method: EncryptionMethod, key: Seq<u8>, nonce: Seq<u8>, plaintext: Seq<u8>) -> Option<Seq<u8>> {
    sealed_with_aad(method, key, nonce, Seq::empty(), plaintext)
}

/// What a method's cipher recovers with no associated data.
pub open spec fn opened_with(method: EncryptionMethod, key: Seq<u8>, nonce: Seq<u8>, ciphertext: Seq<u8>) -> Option<Seq<u8>> {
    opened_with_aad(method, key, nonce, Seq::empty(), ciphertext)
}

/// Display name of a method.
pub open spec fn method_name(m: EncryptionMethod) -> Seq<char> {
    match m {
        EncryptionMethod::Aes256Gcm => "AES-256-GCM"@,
        EncryptionMethod::ChaCha20Poly1305 => "ChaCha20-Poly1305"@,
    }
}

/// Decryption speed label of a method.
pub open spec fn method_speed(m: EncryptionMethod) -> Seq<char> {
    match m {
        EncryptionMethod::Aes256Gcm => "Slow Decryption"@,
        EncryptionMethod::ChaCha20Poly1305 => "Fast Decryption"@,
    }
}

impl EncryptionMethod {
    /// All available methods, in menu order.
    pub fn all() -> (r: &'static [EncryptionMethod])
        ensures
            r@ == seq![EncryptionMethod::Aes256Gcm, EncryptionMethod::ChaCha20Poly1305],
    {
        let r: &'static [EncryptionMethod] = &[EncryptionMethod::Aes256Gcm, EncryptionMethod::ChaCha20Poly1305];
        assert(r@ =~= seq![EncryptionMethod::Aes256Gcm, EncryptionMethod::ChaCha20Poly1305]);
        r
    }

    /// Display name.
    pub fn display_name(&self) -> (r: &'static str)
        ensures
            r@ == method_name(*self),
    {
        match self {
            EncryptionMethod::Aes256Gcm => "AES-256-GCM",
            EncryptionMethod::ChaCha20Poly1305 => "ChaCha20-Poly1305",
        }
    }

    /// Security level label.
    pub fn security_level(&self) -> (r: &'static str)
        ensures
            r@ == "High"@,
    {
        match self {
            EncryptionMethod::Aes256Gcm => "High",
            EncryptionMethod::ChaCha20Poly1305 => "High",
        }
    }

    /// Decryption speed label.
    pub fn decryption_speed(&self) -> (r: &'static str)
        ensures
            r@ == method_speed(*self),
    {
        match self {
            EncryptionMethod::Aes256Gcm => "Slow Decryption",
            EncryptionMethod::ChaCha20Poly1305 => "Fast Decryption",
        }
    }

    /// Full label: `NAME (LEVEL, SPEED)`.
    pub fn profile_label(&self) -> (r: String)
        ensures
            r@ == method_name(*self) + " ("@ + "High"@ + ", "@ + method_speed(*self) + ")"@,
    {
        let mut s = String::from_str(self.display_name());
        s.append(" (");
        s.append(self.security_level());
        s.append(", ");
        s.append(self.decryption_speed());
        s.append(")");
        s
    }
}

/// Ciphertext together with everything needed to decrypt it.
#[derive(Debug, Clone)]
pub struct EncryptedPayload {
    /// Ciphertext followed by the authentication tag.
    pub ciphertext: Vec<u8>,
    /// Nonce, unique per encryption.
    pub nonce: [u8; 12],
    /// Salt the key was derived with.
    pub salt: [u8; 32],
    /// Parameters the key was derived with.
    pub argon2_params: Argon2Params,
}

impl EncryptedPayload {
    /// Builds a payload from its parts.
    pub fn new(ciphertext: Vec<u8>, nonce: [u8; 12], salt: [u8; 32], argon2_params: Argon2Params) -> (r: EncryptedPayload)
        ensures
            r.ciphertext@ == ciphertext@,
            r.nonce == nonce,
            r.salt == salt,
            r.argon2_params == argon2_params,
    {
        EncryptedPayload { ciphertext, nonce, salt, argon2_params }
    }

    /// A copy of this payload.
    pub fn duplicate(&self) -> (r: EncryptedPayload)
        ensures
            r.ciphertext@ == self.ciphertext@,
            r.nonce == self.nonce,
            r.salt == self.salt,
            r.argon2_params == self.argon2_params,
    {
        EncryptedPayload {
            ciphertext: self.ciphertext.clone(),
            nonce: self.nonce,
            salt: self.salt,
            argon2_params: self.argon2_params,
        }
    }
}

/// Encrypts `plaintext` under `key` with `method` and a fresh nonce,
/// binding the associated data `aad` into the tag.
///
/// Succeeds exactly when the cipher takes inputs of these lengths; the payload
/// then carries the given salt and parameters, its ciphertext is the plaintext
/// and a 16-byte tag, and opening it with the same method, key, nonce and
/// associated data gives back the plaintext.
pub fn encrypt_with_aad(
    method: EncryptionMethod,
    plaintext: &[u8],
    key: &[u8; 32],
    salt: [u8; 32],
    argon2_params: Argon2Params,
    aad: &[u8],
) -> (r: Result<EncryptedPayload>)
    ensures
        r is Ok <==> method_accepts(method, plaintext@.len(), aad@.len()),
        match r {
            Ok(p) => {
                &&& sealed_with_aad(method, key@, p.nonce@, aad@, plaintext@) == Some(p.ciphertext@)
                &&& opened_with_aad(method, key@, p.nonce@, aad@, p.ciphertext@) == Some(plaintext@)
                &&& p.ciphertext@.len() == plaintext@.len() + 16
                &&& p.salt == salt
                &&& p.argon2_params == argon2_params
            },
            Err(e) => e matches Error::Encryption(msg) && msg@ == "aead::Error"@,
        },
{
    let nonce = random_nonce();
    let sealed = match method {
        EncryptionMethod::Aes256Gcm => aes256gcm_encrypt(key, &nonce, aad, plaintext),
        EncryptionMethod::ChaCha20Poly1305 => chacha20poly1305_encrypt(key, &nonce, aad, plaintext),
    };
    match sealed {
        Some(ciphertext) => Ok(EncryptedPayload::new(ciphertext, nonce, salt, argon2_params)),
        None => {
            let msg = String::from_str("aead::Error");
            proof { reveal_strlit("aead::Error"); }
            Err(Error::Encryption(msg))
        },
    }
}

/// Decrypts a payload with `method` under `key` and the associated data `aad`.
///
/// Succeeds exactly when the cipher authenticates the ciphertext together
/// with `aad`, and then returns the recovered plaintext; otherwise fails with
/// `Error::Decryption`.
pub fn decrypt_with_aad(method: EncryptionMethod, payload: &EncryptedPayload, key: &[u8; 32], aad: &[u8]) -> (r: Result<Vec<u8>>)
    ensures
        match r {
            Ok(p) => opened_with_aad(method, key@, payload.nonce@, aad@, payload.ciphertext@) == Some(p@),
            Err(e) => opened_with_aad(method, key@, payload.nonce@, aad@, payload.ciphertext@) is None
                && e == Error::Decryption,
        },
{
    let opened = match method {
        EncryptionMethod::Aes256Gcm => aes256gcm_decrypt(key, &payload.nonce, aad, payload.ciphertext.as_slice()),
        EncryptionMethod::ChaCha20Poly1305 => chacha20poly1305_decrypt(key, &payload.nonce, aad, payload.ciphertext.as_slice()),
    };
    match opened {
        Some(p) => Ok(p),
        None => Err(Error::Decryption),
    }
}

/// Encrypts `plaintext` under `key` with `method` and a fresh nonce.
///
/// Succeeds exactly when the cipher takes a plaintext of this length; the
/// payload then carries the given salt and parameters, its ciphertext is the
/// plaintext and a 16-byte tag, and opening it with the same method, key and
/// nonce gives back the plaintext.
pub fn encrypt_with_method(
    method: EncryptionMethod,
    plaintext: &[u8],
    key: &[u8; 32],
    salt: [u8; 32],
    argon2_params: Argon2Params,
) -> (r: Result<EncryptedPayload>)
    ensures
        r is Ok <==> method_accepts(method, plaintext@.len(), 0),
        match r {
            Ok(p) => {
                &&& sealed_with(method, key@, p.nonce@, plaintext@) == Some(p.ciphertext@)
                &&& opened_with(method, key@, p.nonce@, p.ciphertext@) == Some(plaintext@)
                &&& p.ciphertext@.len() == plaintext@.len() + 16
                &&& p.salt == salt
                &&& p.argon2_params == argon2_params
            },
            Err(e) => e matches Error::Encryption(msg) && msg@ == "aead::Error"@,
        },
{
    let no_aad: [u8; 0] = [];
    assert(no_aad@ =~= Seq::<u8>::empty());
    encrypt_with_aad(method, plaintext, key, salt, argon2_params, no_aad.as_slice())
}

/// Decrypts a payload with `method` under `key`.
///
/// Succeeds exactly when the cipher authenticates the ciphertext, and then
/// returns the recovered plaintext; otherwise fails with `Error::Decryption`.
pub fn decrypt_with_method(method: EncryptionMethod, payload: &EncryptedPayload, key: &[u8; 32]) -> (r: Result<Vec<u8>>)
    ensures
        match r {
            Ok(p) => opened_with(method, key@, payload.nonce@, payload.ciphertext@) == Some(p@),
            Err(e) => opened_with(method, key@, payload.nonce@, payload.ciphertext@) is None
                && e == Error::Decryption,
        },
{
    let no_aad: [u8; 0] = [];
    assert(no_aad@ =~= Seq::<u8>::empty());
    decrypt_with_aad(method, payload, key, no_aad.as_slice())
}

/// Encrypts with AES-256-GCM and a fresh nonce.
///
/// Succeeds exactly when the cipher takes a plaintext of this length; the
/// payload then carries the given salt and parameters, and its
/// ciphertext opens with the same key and nonce to the plaintext.
pub fn encrypt(plaintext: &[u8], key: &[u8; 32], salt: [u8; 32], argon2_params: Argon2Params) -> (r: Result<EncryptedPayload>)
    ensures
        r is Ok <==> method_accepts(EncryptionMethod::Aes256Gcm, plaintext@.len(), 0),
        match r {
            Ok(p) => {
                &&& aes256gcm_sealed(key@, p.nonce@, Seq::empty(), plaintext@) == Some(p.ciphertext@)
                &&& aes256gcm_opened(key@, p.nonce@, Seq::empty(), p.ciphertext@) == Some(plaintext@)
                &&& p.ciphertext@.len() == plaintext@.len() + 16
                &&& p.salt == salt
                &&& p.argon2_params == argon2_params
            },
            Err(e) => e matches Error::Encryption(msg) && msg@ == "aead::Error"@,
        },
{
    encrypt_with_method(EncryptionMethod::Aes256Gcm, plaintext, key, salt, argon2_params)
}

/// Decrypts with AES-256-GCM.
pub fn decrypt(payload: &EncryptedPayload, key: &[u8; 32]) -> (r: Result<Vec<u8>>)
    ensures
        match r {
            Ok(p) => aes256gcm_opened(key@, payload.nonce@, Seq::empty(), payload.ciphertext@) == Some(p@),
            Err(e) => aes256gcm_opened(key@, payload.nonce@, Seq::empty(), payload.ciphertext@) is None
                && e == Error::Decryption,
        },
{
    decrypt_with_method(EncryptionMethod::Aes256Gcm, payload, key)
}

/// Encrypts with ChaCha20-Poly1305 and a fresh nonce.
///
/// Succeeds exactly when the cipher takes a plaintext of this length; the
/// payload then carries the given salt and parameters, and its
/// ciphertext opens with the same key and nonce to the plaintext.
pub fn encrypt_chacha(plaintext: &[u8], key: &[u8; 32], salt: [u8; 32], argon2_params: Argon2Params) -> (r: Result<EncryptedPayload>)
    ensures
        r is Ok <==> method_accepts(EncryptionMethod::ChaCha20Poly1305, plaintext@.len(), 0),
        match r {
            Ok(p) => {
                &&& chacha20poly1305_sealed(key@, p.nonce@, Seq::empty(), plaintext@) == Some(p.ciphertext@)
                &&& chacha20poly1305_opened(key@, p.nonce@, Seq::empty(), p.ciphertext@) == Some(plaintext@)
                &&& p.ciphertext@.len() == plaintext@.len() + 16
                &&& p.salt == salt
                &&& p.argon2_params == argon2_params
            },
            Err(e) => e matches Error::Encryption(msg) && msg@ == "aead::Error"@,
        },
{
    encrypt_with_method(EncryptionMethod::ChaCha20Poly1305, plaintext, key, salt, argon2_params)
}

/// Decrypts with ChaCha20-Poly1305.
pub fn decrypt_chacha(payload: &EncryptedPayload, key: &[u8; 32]) -> (r: Result<Vec<u8>>)
    ensures
        match r {
            Ok(p) => chacha20poly1305_opened(key@, payload.nonce@, Seq::empty(), payload.ciphertext@) == Some(p@),
            Err(e) => chacha20poly1305_opened(key@, payload.nonce@, Seq::empty(), payload.ciphertext@) is None
                && e == Error::Decryption,
        },
{
    decrypt_with_method(EncryptionMethod::ChaCha20Poly1305, payload, key)
}

} // verus!
