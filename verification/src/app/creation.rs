//! What a new vault starts with: where its key file comes from, its
//! recovery setup and its key.
use vstd::prelude::*;

use crate::app::security::build_problem;
use crate::crypto::cipher::EncryptionMethod;
use crate::crypto::kdf::{Argon2Params, derive_key_with_new_salt, derived_key, opt_bytes};
use crate::crypto::secure_string::SecureString;
use crate::domain::security_question::{RecoveryMetadata, built_from, pair_views};
use crate::domain::vault::Vault;
use crate::error::Result;
use crate::text::{trim, trim_str};

verus! {

/// Where the key file of a new vault comes from.
#[derive(Debug, PartialEq, Eq)]
pub enum KeyfileSource {
    /// The vault has no key file.
    NoKeyfile,
    /// A new random key file is made (and saved beside the vault).
    Generate,
    /// The key file at this path is read.
    Load(String),
}

/// Where the key file of a new vault comes from: none when none is wanted,
/// a new random one when no path was typed, else the file at the typed path
/// (trimmed).
pub fn keyfile_source(use_keyfile: bool, keyfile_path: &str) -> (r: KeyfileSource)
    ensures
        !use_keyfile ==> r is NoKeyfile,
        use_keyfile && trim(keyfile_path@).len() == 0 ==> r is Generate,
        use_keyfile && trim(keyfile_path@).len() > 0 ==> (r matches KeyfileSource::Load(p) && p@ == trim(keyfile_path@)),
{
    if !use_keyfile {
        return KeyfileSource::NoKeyfile;
    }
    let path = trim_str(keyfile_path);
    if path.as_str().unicode_len() == 0 {
        KeyfileSource::Generate
    } else {
        KeyfileSource::Load(path)
    }
}

/// A new vault, ready to be written.
pub struct NewVault {
    /// The empty vault.
    pub vault: Vault,
    /// Its key.
    pub key: [u8; 32],
    /// The salt the key was derived with.
    pub salt: [u8; 32],
    /// Whether a key file goes into the key.
    pub has_keyfile: bool,
    /// The recovery setup, when questions were given.
    pub recovery_metadata: Option<RecoveryMetadata>,
}

/// Makes a new vault named `vault_name`: the recovery setup is built from
/// the question/answer pairs given (none without pairs), and the key is
/// derived from the password and the key file content, if any, with the
/// default costs and a fresh salt. It fails only where the recovery setup
/// cannot be built: pairs that `build_problem` refuses, or a password of more
/// than 2^34 chars.
pub fn prepare_new_vault(
    vault_name: &str,
    password: &SecureString,
    keyfile: Option<&[u8]>,
    encryption_method: EncryptionMethod,
    question_answers: Vec<(String, SecureString)>,
) -> (r: Result<NewVault>)
    ensures
        ({
            let qa = pair_views(question_answers@);
            &&& qa.len() == 0 || (build_problem(qa) is None && password@.len() <= 0x4_0000_0000) ==> r is Ok
            &&& r matches Err(_) ==> qa.len() > 0
            &&& r matches Ok(nv) ==> {
                &&& nv.vault.name@ == vault_name@
                &&& nv.vault.items@.len() == 0
                &&& nv.has_keyfile == keyfile is Some
                &&& derived_key(password@, opt_bytes(keyfile), nv.salt@, Argon2Params {
                    memory_kib: 65536,
                    iterations: 3,
                    parallelism: 4,
                }) == Some(nv.key@)
                &&& qa.len() == 0 ==> nv.recovery_metadata is None
                &&& qa.len() > 0 ==> (nv.recovery_metadata matches Some(m) && built_from(
                    m,
                    qa,
                    password@,
                    encryption_method,
                ))
            }
        }),
{
    let ghost qa = pair_views(question_answers@);
    let recovery_metadata = if question_answers.len() == 0 {
        None
    } else {
        Some(RecoveryMetadata::build(question_answers, password, encryption_method)?)
    };
    let vault = Vault::new(vault_name);
    let params = Argon2Params::default();
    let (key, salt) = derive_key_with_new_salt(password, keyfile, &params)?;
    Ok(NewVault { vault, key, salt, has_keyfile: keyfile.is_some(), recovery_metadata })
}

} // verus!
