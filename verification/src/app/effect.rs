//! Effects: the outside work (files, clipboard, timers) that an update asks
//! for, and what that work reports back.
use vstd::prelude::*;

use crate::crypto::cipher::EncryptionMethod;
use crate::crypto::secure_string::SecureString;
use crate::domain::security_question::RecoveryMetadata;
use crate::domain::vault::Vault;
use crate::storage::config::AppConfig;
use crate::storage::registry::VaultRegistry;
use crate::ui::screens::login::SecurityQuestionDraft;

verus! {

/// Outside work to carry out.
pub enum Effect {
    /// Nothing.
    Nothing,
    /// Several effects, in order.
    Batch(Vec<Effect>),
    /// Reads a key file, if a path is given, then reads and decrypts a vault
    /// file.
    ReadVaultFile { path: String, password: SecureString, keyfile_path: Option<String> },
    /// Reads the header of a vault file to learn whether it needs a key
    /// file, then continues unlocking with the password.
    CheckKeyfileRequired { path: String, password: SecureString },
    /// Reads the recovery setup from the header of a vault file, to start the
    /// forgot-password flow.
    LoadRecoveryMetadata { vault_name: String, path: String },
    /// Encrypts and writes a vault file with a key already derived.
    WriteVaultFile {
        path: String,
        vault: Vault,
        key: [u8; 32],
        salt: [u8; 32],
        has_keyfile: bool,
        encryption_method: EncryptionMethod,
        recovery_metadata: Option<RecoveryMetadata>,
    },
    /// Creates a new vault file.
    CreateVault {
        vault_name: String,
        password: SecureString,
        use_keyfile: bool,
        keyfile_path: String,
        encryption_method: EncryptionMethod,
        draft_qs: Vec<SecurityQuestionDraft>,
    },
    /// Reads the configuration.
    ReadConfig,
    /// Writes the configuration.
    WriteConfig,
    /// Writes the registry of vaults.
    UpdateRegistry,
    /// Reads a key file.
    ReadKeyfile { path: String },
    /// Puts text on the clipboard.
    SetClipboard { content: String, is_sensitive: bool },
    /// Empties the clipboard.
    ClearClipboard,
    /// Empties the clipboard after a delay, in seconds.
    ScheduleClipboardClear { delay_secs: u64 },
    /// Locks the vault after a delay, in seconds.
    ScheduleAutoLock { delay_secs: u64 },
    /// Cancels the scheduled lock.
    CancelAutoLock,
    /// Exports the vault to a file.
    ExportVault {
        path: String,
        vault: Vault,
        encrypted: bool,
        key: Option<[u8; 32]>,
        salt: Option<[u8; 32]>,
        has_keyfile: bool,
    },
    /// Quits the application.
    Exit,
}

/// The effects of a list once batches are opened (one level) and empty
/// effects dropped.
pub open spec fn flattened(effects: Seq<Effect>) -> Seq<Effect>
    decreases effects.len(),
{
    if effects.len() == 0 {
        Seq::empty()
    } else {
        let rest = flattened(effects.drop_last());
        match effects.last() {
            Effect::Nothing => rest,
            Effect::Batch(inner) => rest + inner@,
            other => rest.push(other),
        }
    }
}

impl Default for Effect {
    fn default() -> (r: Effect)
        ensures
            r is Nothing,
    {
        Effect::Nothing
    }
}

impl Effect {
    /// No effect.
    pub fn none() -> (r: Effect)
        ensures
            r is Nothing,
    {
        Effect::Nothing
    }

    /// The effects in order as one: batches inside are opened and empty
    /// effects dropped; nothing left is no effect, one left is that effect.
    pub fn batch(effects: Vec<Effect>) -> (r: Effect)
        ensures
            flattened(effects@).len() == 0 ==> r is Nothing,
            flattened(effects@).len() == 1 ==> r == flattened(effects@)[0],
            flattened(effects@).len() > 1 ==> (r matches Effect::Batch(v) && v@ == flattened(effects@)),
    {
        let ghost orig = effects@;
        let mut effects = effects;
        let n = effects.len();
        let mut out: Vec<Effect> = Vec::new();
        let mut k: usize = 0;
        assert(orig.take(0) =~= Seq::<Effect>::empty());
        assert(orig.skip(0) =~= orig);
        while effects.len() > 0
            invariant
                n == orig.len(),
                k <= orig.len(),
                effects@ == orig.skip(k as int),
                out@ == flattened(orig.take(k as int)),
            decreases effects@.len(),
        {
            let e = effects.remove(0);
            assert(orig.take(k + 1).drop_last() =~= orig.take(k as int));
            assert(orig.take(k + 1).last() == e);
            assert(effects@ =~= orig.skip(k + 1));
            match e {
                Effect::Nothing => {},
                Effect::Batch(inner) => {
                    let mut inner = inner;
                    out.append(&mut inner);
                },
                other => {
                    out.push(other);
                },
            }
            k = k + 1;
        }
        assert(orig.take(k as int) =~= orig);
        if out.len() == 0 {
            Effect::Nothing
        } else if out.len() == 1 {
            out.remove(0)
        } else {
            Effect::Batch(out)
        }
    }

    /// Whether this is no effect.
    pub fn is_none(&self) -> (r: bool)
        ensures
            r == self is Nothing,
    {
        match self {
            Effect::Nothing => true,
            _ => false,
        }
    }
}

/// What outside work reported.
pub enum EffectResult {
    /// Done.
    Success,
    /// A vault was read and decrypted.
    VaultLoaded {
        vault: Vault,
        path: String,
        key: [u8; 32],
        salt: [u8; 32],
        has_keyfile: bool,
        encryption_method: EncryptionMethod,
        recovery_metadata: Option<RecoveryMetadata>,
    },
    /// A vault was created.
    VaultCreated {
        vault: Vault,
        path: String,
        vault_name: String,
        key: [u8; 32],
        salt: [u8; 32],
        has_keyfile: bool,
        encryption_method: EncryptionMethod,
        recovery_metadata: Option<RecoveryMetadata>,
        keyfile_message: Option<String>,
    },
    /// The vault was saved.
    VaultSaved,
    /// The vault was exported.
    ExportCompleted { path: String },
    /// The configuration was read.
    ConfigLoaded(AppConfig),
    /// The registry was read.
    RegistryLoaded(VaultRegistry),
    /// A key file was read.
    KeyfileLoaded { path: String, data: Vec<u8> },
    /// The work failed.
    Error(String),
}

} // verus!
