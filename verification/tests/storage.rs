use vault::crypto::cipher::{EncryptedPayload, EncryptionMethod};
use vault::crypto::kdf::Argon2Params;
use vault::crypto::secure_string::SecureString;
use vault::domain::vault::Vault;
use vault::storage::config::{AppConfig, IconColorChoice, ThemeChoice};
use vault::storage::registry::{VaultRegistry, VaultRegistryEntry};
use vault::storage::vault_file::{
    encode_frame, split_header, split_payload, VaultFile, VaultFileHeader, MAX_HEADER_SIZE, MAX_PAYLOAD_SIZE,
    VAULT_MAGIC, VAULT_VERSION,
};
use vault::Error;

#[test]
fn test_config_default() {
    let config = AppConfig::default();
    assert_eq!(config.theme, ThemeChoice::CatppuccinMocha);
    assert_eq!(config.clipboard_timeout_secs, 60);
    assert!(config.auto_lock_enabled);
}

#[test]
fn test_theme_display_name() {
    assert_eq!(ThemeChoice::CatppuccinMocha.display_name(), "Catppuccin Mocha");
    assert_eq!(ThemeChoice::TokyoNightNight.display_name(), "Tokyo Night");
}

#[test]
fn test_theme_is_light() {
    assert!(ThemeChoice::CatppuccinLatte.is_light());
    assert!(ThemeChoice::TokyoNightDay.is_light());
    assert!(!ThemeChoice::CatppuccinMocha.is_light());
}

#[test]
fn config_load_or_default_and_choices() {
    let mut custom = AppConfig::default();
    custom.show_icons = false;
    assert!(!AppConfig::load_or_default(Some(custom)).show_icons);
    assert!(AppConfig::load_or_default(None).show_icons);
    assert_eq!(AppConfig::load_or_default(None).auto_lock_timeout_secs, 300);
    assert_eq!(ThemeChoice::all().len(), 7);
    assert_eq!(IconColorChoice::all().len(), 8);
    assert_eq!(IconColorChoice::ThemeDefault.display_name(), "Theme Default");
    assert_eq!(ThemeChoice::CatppuccinFrappe.display_name(), "Catppuccin Frappé");
}

#[test]
fn test_registry_entry() {
    let entry = VaultRegistryEntry::new("/path/to/vault.vault", "My Vault");

    assert_eq!(entry.name, "My Vault");
    assert!(!entry.is_default);
}

#[test]
fn test_registry_add_update() {
    let mut registry = VaultRegistry::new();

    registry.add_or_update("/vault1.vault", "Vault 1");
    assert_eq!(registry.len(), 1);

    registry.add_or_update("/vault2.vault", "Vault 2");
    assert_eq!(registry.len(), 2);

    registry.add_or_update("/vault1.vault", "Updated Vault 1");
    assert_eq!(registry.len(), 2);

    let entry = registry.entries.iter().find(|e| e.path == "/vault1.vault");
    assert_eq!(entry.unwrap().name, "Updated Vault 1");
}

#[test]
fn test_registry_default() {
    let mut registry = VaultRegistry::new();

    registry.add_or_update("/vault1.vault", "Vault 1");
    registry.add_or_update("/vault2.vault", "Vault 2");

    assert!(registry.default_vault().is_none());

    registry.set_default("/vault1.vault");
    assert_eq!(registry.default_vault().unwrap().path, "/vault1.vault");

    registry.set_default("/vault2.vault");
    assert_eq!(registry.default_vault().unwrap().path, "/vault2.vault");

    let v1 = registry.entries.iter().find(|e| e.path == "/vault1.vault");
    assert!(!v1.unwrap().is_default);
}

#[test]
fn test_registry_remove() {
    let mut registry = VaultRegistry::new();

    registry.add_or_update("/vault1.vault", "Vault 1");
    registry.add_or_update("/vault2.vault", "Vault 2");

    assert!(registry.remove("/vault1.vault"));
    assert_eq!(registry.len(), 1);

    assert!(!registry.remove("/nonexistent.vault"));
}

#[test]
fn test_registry_sorted() {
    let mut registry = VaultRegistry::new();

    registry.add_or_update("/old.vault", "Old");
    let start = chrono::Utc::now().timestamp_millis();
    while chrono::Utc::now().timestamp_millis() < start + 10 {}
    registry.add_or_update("/new.vault", "New");

    let sorted = registry.sorted_by_recent();
    assert_eq!(sorted[0].name, "New");
    assert_eq!(sorted[1].name, "Old");
}

#[test]
fn registry_sort_is_stable_and_cleanup_keeps_existing() {
    let mut registry = VaultRegistry::new();
    registry.entries.push(VaultRegistryEntry { path: "/a".to_string(), name: "A".to_string(), last_opened: 5, is_default: false });
    registry.entries.push(VaultRegistryEntry { path: "/b".to_string(), name: "B".to_string(), last_opened: 9, is_default: false });
    registry.entries.push(VaultRegistryEntry { path: "/c".to_string(), name: "C".to_string(), last_opened: 5, is_default: false });
    let names: Vec<&str> = registry.sorted_by_recent().iter().map(|e| e.name.as_str()).collect();
    assert_eq!(names, vec!["B", "A", "C"]);
    let removed = registry.cleanup(&vec![true, false, true]);
    assert_eq!(removed, 1);
    let left: Vec<&str> = registry.entries.iter().map(|e| e.name.as_str()).collect();
    assert_eq!(left, vec!["A", "C"]);
    assert!(!registry.set_default("/zzz"));
    assert!(registry.entries.iter().all(|e| !e.is_default));
    assert!(!registry.is_empty());
}

fn fast_params() -> Argon2Params {
    Argon2Params { memory_kib: 1024, iterations: 1, parallelism: 1 }
}

fn sealed(vault: &Vault, password: &SecureString, keyfile: Option<&[u8]>) -> VaultFile {
    let header = VaultFileHeader::from_vault(vault, keyfile.is_some(), EncryptionMethod::Aes256Gcm, fast_params(), None);
    let header_bytes = format!("header:{}", vault.name).into_bytes();
    VaultFile::new_with_options(header, header_bytes, b"vault body", password, keyfile).unwrap()
}

#[test]
fn test_vault_file_roundtrip() {
    let vault = Vault::new("Test Vault");
    let password = SecureString::from_str("master_password");
    let file = sealed(&vault, &password, None);
    assert_eq!(file.version, VAULT_VERSION);
    assert_eq!(file.decrypt(&password, None).unwrap(), b"vault body");
    assert_eq!(file.header.vault_name, "Test Vault");
}

#[test]
fn test_vault_file_with_keyfile() {
    let vault = Vault::new("Secured Vault");
    let password = SecureString::from_str("password");
    let keyfile = vec![1, 2, 3, 4, 5, 6, 7, 8, 9, 10];
    let file = sealed(&vault, &password, Some(&keyfile));

    assert!(file.decrypt(&password, None).is_err());
    assert_eq!(file.decrypt(&password, Some(&keyfile)).unwrap(), b"vault body");
    assert!(file.header.has_keyfile);
}

#[test]
fn test_vault_file_wrong_password() {
    let vault = Vault::new("Test");
    let password = SecureString::from_str("correct_password");
    let wrong = SecureString::from_str("wrong_password");
    let file = sealed(&vault, &password, None);
    assert_eq!(file.decrypt(&wrong, None), Err(Error::Decryption));
}

#[test]
fn test_read_header() {
    let vault = Vault::new("Header Test").with_description("Testing header read");
    let password = SecureString::from_str("password");
    let file = sealed(&vault, &password, None);
    let bytes = encode_frame(file.version, &file.header_bytes, b"payload");
    let (version, header_bytes) = split_header(&bytes).unwrap();
    assert_eq!(version, VAULT_VERSION);
    assert_eq!(header_bytes, b"header:Header Test");
    assert_eq!(split_payload(&bytes, header_bytes.len()).unwrap(), b"payload");
    assert!(!file.header.has_keyfile);
}

#[test]
fn test_vault_file_magic() {
    assert_eq!(
        split_header(b"FAKE").unwrap_err(),
        Error::InvalidVaultFormat("Invalid vault file magic".to_string())
    );
}

#[test]
fn frame_errors_are_exact() {
    assert_eq!(split_header(b"VA").unwrap_err(), Error::FileRead("failed to fill whole buffer".to_string()));
    let mut bytes = VAULT_MAGIC.to_vec();
    bytes.extend_from_slice(&3u16.to_le_bytes());
    assert_eq!(
        split_header(&bytes).unwrap_err(),
        Error::InvalidVaultFormat("Unsupported vault version: 3. This version of Vault only supports version 4.".to_string())
    );
}

#[test]
fn test_new_with_key_preserves_keyfile_flag() {
    let vault = Vault::new("Has Keyfile");
    let key = [7u8; 32];
    let salt = [9u8; 32];

    let header = VaultFileHeader::from_vault(&vault, true, EncryptionMethod::Aes256Gcm, Argon2Params::default(), None);
    let with_keyfile = VaultFile::new_with_key_options(header, b"h".to_vec(), b"v", &key, &salt).unwrap();
    assert!(with_keyfile.header.has_keyfile);
    assert_eq!(with_keyfile.encrypted_payload.salt, salt);

    let header = VaultFileHeader::from_vault(&vault, false, EncryptionMethod::Aes256Gcm, Argon2Params::default(), None);
    let without_keyfile = VaultFile::new_with_key_options(header, b"h".to_vec(), b"v", &key, &salt).unwrap();
    assert!(!without_keyfile.header.has_keyfile);
}

#[test]
fn test_read_rejects_oversized_header() {
    let mut bytes = Vec::new();
    bytes.extend_from_slice(&VAULT_MAGIC);
    bytes.extend_from_slice(&VAULT_VERSION.to_le_bytes());
    bytes.extend_from_slice(&((MAX_HEADER_SIZE as u32) + 1).to_le_bytes());

    assert!(matches!(
        split_header(&bytes),
        Err(Error::InvalidVaultFormat(msg)) if msg.contains("Header too large")
    ));
}

#[test]
fn test_read_rejects_oversized_payload() {
    let header_bytes = b"some header".to_vec();
    let mut bytes = Vec::new();
    bytes.extend_from_slice(&VAULT_MAGIC);
    bytes.extend_from_slice(&VAULT_VERSION.to_le_bytes());
    bytes.extend_from_slice(&(header_bytes.len() as u32).to_le_bytes());
    bytes.extend_from_slice(&header_bytes);
    bytes.extend_from_slice(&((MAX_PAYLOAD_SIZE as u32) + 1).to_le_bytes());

    let (_, h) = split_header(&bytes).unwrap();
    assert!(matches!(
        split_payload(&bytes, h.len()),
        Err(Error::InvalidVaultFormat(msg)) if msg.contains("Payload too large")
    ));
}

#[test]
fn test_tampered_header_fails_decryption() {
    let vault = Vault::new("Tamper Test");
    let password = SecureString::from_str("password");
    let file = sealed(&vault, &password, None);
    let mut header_bytes = file.header_bytes.clone();
    header_bytes[0] ^= 0xFF;
    let tampered = VaultFile::from_parts(file.header.clone(), file.encrypted_payload.duplicate(), header_bytes, file.version);
    assert!(tampered.decrypt(&password, None).is_err());
}

#[test]
fn test_read_rejects_malicious_argon2_params() {
    let mut params = Argon2Params::default();
    params.memory_kib = 4 * 1024 * 1024;
    let vault = Vault::new("Malicious Vault");
    let header = VaultFileHeader::from_vault(&vault, false, EncryptionMethod::Aes256Gcm, params, None);
    assert!(matches!(
        header.check_limits(),
        Err(Error::InvalidVaultFormat(msg)) if msg.contains("Argon2 parameters exceed safety limits")
    ));
    let ok = VaultFileHeader::from_vault(&vault, false, EncryptionMethod::Aes256Gcm, Argon2Params::default(), None);
    assert!(ok.check_limits().is_ok());
    let _payload = EncryptedPayload::new(vec![0; 32], [0; 12], [0; 32], Argon2Params::default());
}
