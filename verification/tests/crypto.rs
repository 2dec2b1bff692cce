use vault::crypto::cipher::{decrypt, decrypt_chacha, decrypt_with_method, encrypt, encrypt_chacha, encrypt_with_method, EncryptionMethod};
use vault::crypto::kdf::{
    calibrate_argon2_params, calibration_step, constant_time_compare, derive_key, derive_key_with_new_salt,
    generate_salt, hash_security_answer, normalize_security_answer, verify_security_answer, Argon2Params,
};
use vault::crypto::keyfile::{keyfile_size_acceptable, KeyFile, KEYFILE_SIZE};
use vault::crypto::secure_string::{decimal_string, SecureBytes, SecureString};
use vault::Error;

#[test]
fn test_secure_string_basic() {
    let s = SecureString::new("secret".to_string());
    assert_eq!(s.as_str(), "secret");
    assert_eq!(s.len(), 6);
    assert!(!s.is_empty());
}

#[test]
fn test_secure_string_debug_redacted() {
    let s = SecureString::new("mysecretpassword".to_string());
    let debug = s.debug_string();
    assert!(!debug.contains("mysecretpassword"));
    assert!(debug.contains("16"));
}

#[test]
fn test_secure_string_display_redacted() {
    let s = SecureString::new("password123".to_string());
    let display = s.redacted_string();
    assert!(!display.contains("password123"));
    assert!(display.contains("REDACTED"));
}

#[test]
fn test_secure_string_mutation() {
    let mut s = SecureString::from_str("test");
    s.push('!');
    assert_eq!(s.as_str(), "test!");
    s.pop();
    assert_eq!(s.as_str(), "test");
}

#[test]
fn test_secure_bytes() {
    let bytes = SecureBytes::new(vec![1, 2, 3, 4]);
    assert_eq!(bytes.as_slice(), &[1, 2, 3, 4]);
    assert_eq!(bytes.len(), 4);
}

#[test]
fn secure_string_exact_redactions() {
    let s = SecureString::from_str("héllo");
    assert_eq!(s.debug_string(), "SecureString { len: 6 }");
    assert_eq!(s.redacted_string(), "[REDACTED 6 chars]");
    let mut e = SecureString::empty();
    assert!(e.is_empty());
    assert_eq!(e.pop(), None);
    let mut c = SecureString::from_str("abc");
    c.clear();
    assert!(c.is_empty());
    assert_eq!(decimal_string(0), "0");
    assert_eq!(decimal_string(1234567890), "1234567890");
}

#[test]
fn test_encrypt_decrypt_roundtrip() {
    let key = [42u8; 32];
    let salt = [1u8; 32];
    let params = Argon2Params::default();
    let plaintext = b"Hello, Vault!";

    let encrypted = encrypt(plaintext, &key, salt, params).unwrap();
    let decrypted = decrypt(&encrypted, &key).unwrap();

    assert_eq!(decrypted, plaintext);
}

#[test]
fn test_encrypt_produces_different_ciphertext() {
    let key = [42u8; 32];
    let salt = [1u8; 32];
    let params = Argon2Params::default();
    let plaintext = b"Same plaintext";

    let encrypted1 = encrypt(plaintext, &key, salt, params).unwrap();
    let encrypted2 = encrypt(plaintext, &key, salt, params).unwrap();

    assert_ne!(encrypted1.ciphertext, encrypted2.ciphertext);
    assert_ne!(encrypted1.nonce, encrypted2.nonce);
}

#[test]
fn test_decrypt_wrong_key_fails() {
    let key = [42u8; 32];
    let wrong_key = [43u8; 32];
    let salt = [1u8; 32];
    let params = Argon2Params::default();
    let plaintext = b"Secret data";

    let encrypted = encrypt(plaintext, &key, salt, params).unwrap();
    let result = decrypt(&encrypted, &wrong_key);

    assert!(result.is_err());
}

#[test]
fn test_decrypt_tampered_ciphertext_fails() {
    let key = [42u8; 32];
    let salt = [1u8; 32];
    let params = Argon2Params::default();
    let plaintext = b"Secret data";

    let mut encrypted = encrypt(plaintext, &key, salt, params).unwrap();
    if let Some(byte) = encrypted.ciphertext.first_mut() {
        *byte ^= 0xFF;
    }

    let result = decrypt(&encrypted, &key);
    assert!(result.is_err());
}

#[test]
fn test_empty_plaintext() {
    let key = [42u8; 32];
    let salt = [1u8; 32];
    let params = Argon2Params::default();
    let plaintext = b"";

    let encrypted = encrypt(plaintext, &key, salt, params).unwrap();
    let decrypted = decrypt(&encrypted, &key).unwrap();

    assert_eq!(decrypted, plaintext);
}

#[test]
fn test_large_plaintext() {
    let key = [42u8; 32];
    let salt = [1u8; 32];
    let params = Argon2Params::default();
    let plaintext: Vec<u8> = (0..1_000_000).map(|i| (i % 256) as u8).collect();

    let encrypted = encrypt(&plaintext, &key, salt, params).unwrap();
    let decrypted = decrypt(&encrypted, &key).unwrap();

    assert_eq!(decrypted, plaintext);
}

#[test]
fn test_encryption_method_profile_label() {
    let label = EncryptionMethod::Aes256Gcm.profile_label();
    assert!(label.contains("AES-256-GCM"));
    assert!(label.contains("High"));
}

#[test]
fn chacha_roundtrip_and_method_mismatch() {
    let key = [7u8; 32];
    let p = encrypt_with_method(EncryptionMethod::ChaCha20Poly1305, b"data", &key, [0u8; 32], Argon2Params::default())
        .unwrap();
    assert_eq!(decrypt_with_method(EncryptionMethod::ChaCha20Poly1305, &p, &key).unwrap(), b"data");
    assert_eq!(decrypt_with_method(EncryptionMethod::Aes256Gcm, &p, &key), Err(Error::Decryption));
    assert_eq!(p.ciphertext.len(), 4 + 16);
    assert_ne!(p.ciphertext[..4], b"data"[..]);
}

#[test]
fn test_generate_salt() {
    let salt1 = generate_salt();
    let salt2 = generate_salt();

    assert_ne!(salt1, salt2);
    assert_eq!(salt1.len(), 32);
}

#[test]
fn test_derive_key_basic() {
    let password = SecureString::from_str("test_password");
    let salt = generate_salt();
    let params = Argon2Params::fast_for_testing();

    let key = derive_key(&password, None, &salt, &params).unwrap();
    assert_eq!(key.len(), 32);
}

#[test]
fn test_derive_key_deterministic() {
    let password = SecureString::from_str("test_password");
    let salt = [42u8; 32];
    let params = Argon2Params::fast_for_testing();

    let key1 = derive_key(&password, None, &salt, &params).unwrap();
    let key2 = derive_key(&password, None, &salt, &params).unwrap();

    assert_eq!(key1, key2);
}

#[test]
fn test_derive_key_with_keyfile() {
    let password = SecureString::from_str("test_password");
    let keyfile = vec![1, 2, 3, 4, 5];
    let salt = [42u8; 32];
    let params = Argon2Params::fast_for_testing();

    let key_without_kf = derive_key(&password, None, &salt, &params).unwrap();
    let key_with_kf = derive_key(&password, Some(&keyfile), &salt, &params).unwrap();

    assert_ne!(key_without_kf, key_with_kf);
}

#[test]
fn test_derive_key_different_passwords() {
    let password1 = SecureString::from_str("password1");
    let password2 = SecureString::from_str("password2");
    let salt = [42u8; 32];
    let params = Argon2Params::fast_for_testing();

    let key1 = derive_key(&password1, None, &salt, &params).unwrap();
    let key2 = derive_key(&password2, None, &salt, &params).unwrap();

    assert_ne!(key1, key2);
}

#[test]
fn derive_key_rejects_bad_costs() {
    let password = SecureString::from_str("pw");
    let salt = [1u8; 32];
    let bad = Argon2Params { memory_kib: 4, iterations: 1, parallelism: 1 };
    assert_eq!(
        derive_key(&password, None, &salt, &bad),
        Err(Error::KeyDerivation("memory cost is too small".to_string()))
    );
    let no_time = Argon2Params { memory_kib: 1024, iterations: 0, parallelism: 1 };
    assert_eq!(
        derive_key(&password, None, &salt, &no_time),
        Err(Error::KeyDerivation("time cost is too small".to_string()))
    );
    let no_threads = Argon2Params { memory_kib: 1024, iterations: 0, parallelism: 0 };
    assert_eq!(
        derive_key(&password, None, &salt, &no_threads),
        Err(Error::KeyDerivation("not enough threads".to_string()))
    );
    let (key, salt2) = derive_key_with_new_salt(&password, None, &Argon2Params::fast_for_testing()).unwrap();
    assert_eq!(derive_key(&password, None, &salt2, &Argon2Params::fast_for_testing()).unwrap(), key);
}

#[test]
fn test_security_answer_hash_verify() {
    let answer = SecureString::from_str("My Pet Name");
    let (hash, salt) = hash_security_answer(&answer).unwrap();

    assert!(verify_security_answer(&answer, &hash, &salt).unwrap());

    let variations = vec!["my pet name"];

    for var in variations {
        let var_ss = SecureString::from_str(var);
        assert!(verify_security_answer(&var_ss, &hash, &salt).unwrap(), "Should match for variation: '{}'", var);
    }
}

// The remaining cases of the test above, kept apart so that each test stays
// short: every answer check is a full Argon2 run at 64 MiB.
#[test]
fn test_security_answer_hash_verify_case_and_spacing() {
    let answer = SecureString::from_str("My Pet Name");
    let (hash, salt) = hash_security_answer(&answer).unwrap();

    let variations = vec!["MY PET NAME", "  My Pet Name  "];

    for var in variations {
        let var_ss = SecureString::from_str(var);
        assert!(verify_security_answer(&var_ss, &hash, &salt).unwrap(), "Should match for variation: '{}'", var);
    }
}

#[test]
fn test_security_answer_hash_verify_trailing_space_and_wrong() {
    let answer = SecureString::from_str("My Pet Name");
    let (hash, salt) = hash_security_answer(&answer).unwrap();

    let var_ss = SecureString::from_str("my pet name  ");
    assert!(verify_security_answer(&var_ss, &hash, &salt).unwrap());

    let wrong = SecureString::from_str("wrong answer");
    assert!(!verify_security_answer(&wrong, &hash, &salt).unwrap());
}

#[test]
fn test_security_answer_international_chars() {
    let answer_tr = SecureString::from_str("İstanbul");
    let (hash, salt) = hash_security_answer(&answer_tr).unwrap();

    let variations = vec!["i\u{0307}stanbul", "İSTANBUL"];

    for var in variations {
        let var_ss = SecureString::from_str(var);
        assert!(verify_security_answer(&var_ss, &hash, &salt).unwrap(), "Turkish variation should match: '{}'", var);
    }
}

// The other cases of the test above, kept apart for the same reason.
#[test]
fn test_security_answer_international_chars_padded() {
    let answer_tr = SecureString::from_str("İstanbul");
    let (hash, salt) = hash_security_answer(&answer_tr).unwrap();

    let var_ss = SecureString::from_str("  İSTANBUL  ");
    assert!(verify_security_answer(&var_ss, &hash, &salt).unwrap(), "Turkish variation should match: '{}'", "  İSTANBUL  ");
}

#[test]
fn test_security_answer_international_chars_cyrillic_and_ligature() {
    let answer_cy = SecureString::from_str("Москва");
    let (hash_cy, salt_cy) = hash_security_answer(&answer_cy).unwrap();

    let var_cy = SecureString::from_str("москва");
    assert!(verify_security_answer(&var_cy, &hash_cy, &salt_cy).unwrap());

    let answer_lig = SecureString::from_str("ﬁle");
    let (hash_lig, salt_lig) = hash_security_answer(&answer_lig).unwrap();

    let var_lig = SecureString::from_str("File");
    assert!(verify_security_answer(&var_lig, &hash_lig, &salt_lig).unwrap());
}

#[test]
fn normalized_answers_are_trimmed_and_folded() {
    assert_eq!(normalize_security_answer("  My Pet  "), "my pet");
    assert_eq!(normalize_security_answer("ﬁle"), "file");
}

#[test]
fn test_constant_time_compare() {
    let a = [1, 2, 3, 4];
    let b = [1, 2, 3, 4];
    let c = [1, 2, 3, 5];
    let d = [1, 2, 3];

    assert!(constant_time_compare(&a, &b));
    assert!(!constant_time_compare(&a, &c));
    assert!(!constant_time_compare(&a, &d));
}

#[test]
fn test_calibrate_argon2_params() {
    let target_ms = 50;
    let params = calibrate_argon2_params(target_ms, 2);

    assert!(params.memory_kib >= 16384);
    assert!(params.iterations >= 1);
    assert!(params.parallelism >= 1);

    assert!(params.memory_kib <= 524288);
    assert!(params.iterations <= 10);
}

#[test]
fn test_argon2_params_calibrate_method() {
    let params = Argon2Params::calibrate(30, 2);
    assert!(params.memory_kib >= 16384);
}

#[test]
fn calibration_step_doubles_memory_then_iterations() {
    let p = Argon2Params { memory_kib: 16384, iterations: 1, parallelism: 2 };
    let next = calibration_step(p, 10, 10, 100).unwrap();
    assert_eq!(next.memory_kib, 32768);
    assert_eq!(next.iterations, 1);
    assert!(calibration_step(p, 200, 200, 100).is_none());
}

#[test]
fn test_keyfile_generate() {
    let kf = KeyFile::generate();
    assert_eq!(kf.len(), KEYFILE_SIZE);
    assert!(!kf.is_empty());
}

#[test]
fn test_keyfile_generate_unique() {
    let kf1 = KeyFile::generate();
    let kf2 = KeyFile::generate();
    assert_ne!(kf1.as_bytes(), kf2.as_bytes());
}

#[test]
fn test_keyfile_load_empty() {
    assert!(KeyFile::from_bytes(Vec::new()).is_err());
}

#[test]
fn test_keyfile_load_too_small() {
    assert!(KeyFile::from_bytes(b"tiny".to_vec()).is_err());
}

#[test]
fn keyfile_from_bytes_accepts_minimum_and_wipes() {
    let mut kf = KeyFile::from_bytes(vec![9u8; 8]).unwrap();
    assert_eq!(kf.as_bytes(), &[9u8; 8]);
    kf.wipe();
    assert!(kf.is_empty());
    assert!(keyfile_size_acceptable(8));
    assert!(!keyfile_size_acceptable(7));
    assert!(!keyfile_size_acceptable(10 * 1024 * 1024 + 1));
}


#[test]
fn chacha_roundtrip_and_wrong_key() {
    let key = [7u8; 32];
    let salt = [3u8; 32];
    let params = Argon2Params::default();
    let plaintext = b"chacha payload";

    let encrypted = encrypt_chacha(plaintext, &key, salt, params).unwrap();
    assert_ne!(encrypted.ciphertext.as_slice(), plaintext.as_slice());
    assert_eq!(encrypted.salt, salt);
    assert_eq!(decrypt_chacha(&encrypted, &key).unwrap(), plaintext);
    assert!(matches!(decrypt_chacha(&encrypted, &[8u8; 32]), Err(Error::Decryption)));
    assert!(matches!(decrypt(&encrypted, &key), Err(Error::Decryption)));
}

#[test]
fn ciphertext_is_plaintext_plus_tag() {
    let key = [7u8; 32];
    let params = Argon2Params::default();
    for method in [EncryptionMethod::Aes256Gcm, EncryptionMethod::ChaCha20Poly1305] {
        let payload = encrypt_with_method(method, b"twelve bytes", &key, [3u8; 32], params).unwrap();
        assert_eq!(payload.ciphertext.len(), 12 + 16);
        let empty = encrypt_with_method(method, b"", &key, [3u8; 32], params).unwrap();
        assert_eq!(empty.ciphertext.len(), 16);
    }
}
