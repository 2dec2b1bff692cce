use vault::crypto::cipher::EncryptionMethod;
use vault::crypto::secure_string::SecureString;
use vault::domain::history::{HistoryAction, HistoryEntry, ItemSnapshot, UndoEntry, UndoStack};
use vault::domain::item::{CustomField, CustomFieldType, Item, ItemContent, ItemKind};
use vault::domain::mask::partial_reveal;
use vault::domain::security_question::{RecoveryConfig, RecoveryMetadata, RecoveryState, SecurityQuestion};
use vault::domain::tag::Tag;
use vault::domain::vault::{Vault, VaultSettings};
use vault::Error;

fn generic(v: &str) -> ItemContent {
    ItemContent::Generic { value: v.to_string() }
}

#[test]
fn test_history_entry_creation() {
    let snapshot = ItemSnapshot::new("Test", generic("value"), None, vec![]);
    let entry = HistoryEntry::created(snapshot);
    assert!(matches!(entry.action, HistoryAction::Created));
    assert_eq!(entry.action.description(), "Created");
    let modified = HistoryAction::Modified { field: "title".to_string() };
    assert_eq!(modified.description(), "Modified title");
}

#[test]
fn test_undo_stack() {
    let mut stack = UndoStack::new();

    assert!(!stack.can_undo());
    assert!(!stack.can_redo());

    let snapshot = ItemSnapshot::new("Test", generic("old"), None, vec![]);
    let entry = UndoEntry::new("Edit title", 7, snapshot);
    stack.push(entry);

    assert!(stack.can_undo());
    assert!(!stack.can_redo());
    assert_eq!(stack.undo_description(), Some("Edit title"));

    let undone = stack.pop_undo().unwrap();
    stack.push_redo(undone);

    assert!(!stack.can_undo());
    assert!(stack.can_redo());
    assert_eq!(stack.redo_description(), Some("Edit title"));
}

#[test]
fn test_undo_stack_max_size() {
    let mut stack = UndoStack::with_max_size(3);

    for i in 0..5 {
        let snapshot = ItemSnapshot::new(&format!("Item {}", i), generic("v"), None, vec![]);
        stack.push(UndoEntry::new(&format!("Action {}", i), i as u128, snapshot));
    }

    let mut count = 0;
    let mut last = Vec::new();
    while let Some(e) = stack.pop_undo() {
        last.push(e.description.clone());
        count += 1;
    }
    assert_eq!(count, 3);
    assert_eq!(last, vec!["Action 4", "Action 3", "Action 2"]);
}

#[test]
fn undo_stack_push_clears_redo() {
    let mut stack = UndoStack::new();
    stack.push(UndoEntry::new("a", 1, ItemSnapshot::new("t", generic("x"), None, vec![])));
    let e = stack.pop_undo().unwrap();
    stack.push_redo(e);
    assert!(stack.can_redo());
    stack.push(UndoEntry::new("b", 2, ItemSnapshot::new("t", generic("y"), None, vec![])));
    assert!(!stack.can_redo());
    stack.clear();
    assert!(!stack.can_undo());
}

#[test]
fn test_item_generic() {
    let item = Item::generic("My Secret", "super_secret_value");

    assert_eq!(item.title, "My Secret");
    assert_eq!(item.kind, ItemKind::Generic);
    assert_eq!(item.get_copyable_content(), Some("super_secret_value"));
}

#[test]
fn test_item_crypto_seed() {
    let item = Item::crypto_seed(
        "Bitcoin Wallet",
        "abandon abandon abandon abandon abandon abandon abandon abandon abandon abandon abandon about",
    );

    assert_eq!(item.kind, ItemKind::CryptoSeed);
    assert!(item.get_copyable_content().unwrap().contains("abandon"));
}

#[test]
fn test_item_password() {
    let item = Item::password("GitHub", "my_password123").with_notes("Main account").with_favorite(true);

    assert_eq!(item.kind, ItemKind::Password);
    assert!(item.favorite);
    assert_eq!(item.notes, Some("Main account".to_string()));
}

#[test]
fn test_item_kind_display() {
    assert_eq!(ItemKind::CryptoSeed.display_name(), "Crypto Seed");
    assert_eq!(ItemKind::Password.icon(), "󰌋");
}

#[test]
fn item_custom_content_copies_first_field() {
    let fields = vec![
        CustomField { key: "user".to_string(), value: "alice".to_string(), field_type: CustomFieldType::Text },
        CustomField { key: "token".to_string(), value: "xyz".to_string(), field_type: CustomFieldType::Secret },
    ];
    let item = Item::new("Custom", ItemKind::Custom, ItemContent::Custom { fields });
    assert_eq!(item.get_copyable_content(), Some("alice"));
    let empty = Item::new("Empty", ItemKind::Custom, ItemContent::Custom { fields: vec![] });
    assert_eq!(empty.get_copyable_content(), None);
    assert_eq!(ItemKind::all().len(), 7);
    assert_eq!(CustomFieldType::Number.as_str(), "number");
    let copy = item.duplicate();
    assert_eq!(copy.id, item.id);
    assert_eq!(copy.title, item.title);
}

#[test]
fn test_security_question_verify() {
    let answer = SecureString::from_str("fluffy");
    let question = SecurityQuestion::new("What is your pet's name?", &answer).unwrap();

    assert!(question.verify(&SecureString::from_str("fluffy")).unwrap());
    assert!(!question.verify(&SecureString::from_str("spot")).unwrap());
}

#[test]
fn test_recovery_config_percentages() {
    let config = RecoveryConfig::default();

    assert_eq!(config.get_reveal_percentage(0), 0);
    assert_eq!(config.get_reveal_percentage(1), 30);
    assert_eq!(config.get_reveal_percentage(2), 50);
    assert_eq!(config.get_reveal_percentage(3), 80);
}

#[test]
fn test_recovery_state() {
    let q1 = SecurityQuestion::new("Q1?", &SecureString::from_str("a1")).unwrap();
    let q2 = SecurityQuestion::new("Q2?", &SecureString::from_str("a2")).unwrap();

    let mut state = RecoveryState::new(vec![q1, q2], 12345);

    assert_eq!(state.correct_count(), 0);
    assert!(!state.is_complete());

    assert!(state.attempt_answer(0, &SecureString::from_str("a1")).unwrap());
    assert_eq!(state.correct_count(), 1);

    assert!(!state.attempt_answer(1, &SecureString::from_str("wrong")).unwrap());
    assert_eq!(state.failed_attempts, 1);

    assert!(state.attempt_answer(1, &SecureString::from_str("a2")).unwrap());
    assert!(state.is_complete());
}

#[test]
fn recovery_locks_out_after_the_allowed_wrong_answers() {
    let q = SecurityQuestion::new("Q?", &SecureString::from_str("answer")).unwrap();
    let mut state = RecoveryState::new(vec![q], 12345);
    state.config.max_attempts = 2;

    let _ = state.attempt_answer(0, &SecureString::from_str("wrong"));
    assert!(!state.is_locked_out());
    let _ = state.attempt_answer(0, &SecureString::from_str("wrong"));
    assert!(state.is_locked_out());
    assert_eq!(state.failed_attempts, 2);
}

#[test]
fn recovery_allows_five_wrong_answers_by_default() {
    let mut state = RecoveryState::new(vec![], 12345);
    assert_eq!(state.config.max_attempts, 5);
    state.failed_attempts = 4;
    assert!(!state.is_locked_out());
    state.failed_attempts = 5;
    assert!(state.is_locked_out());
}

#[test]
fn test_partial_reveal() {
    let q = SecurityQuestion::new("Q?", &SecureString::from_str("a")).unwrap();
    let mut state = RecoveryState::new(vec![q], 12345);

    let password = "kucinghitam";

    let revealed = state.reveal_password(password);
    assert!(!revealed.contains('k'));
    assert!(revealed.chars().all(|c| c == '•'));

    let _ = state.attempt_answer(0, &SecureString::from_str("a"));
    let revealed = state.reveal_password(password);
    assert_eq!(revealed.chars().count(), password.chars().count());
    assert!(revealed.chars().any(|c| c != '•'));
}

#[test]
fn partial_reveal_exact_positions() {
    assert_eq!(partial_reveal("abcdefghij", 30, 0), "abc•••••••");
    assert_eq!(partial_reveal("abcdefghij", 30, 8), "••cde•••••");
    assert_eq!(partial_reveal("abcd", 0, 3), "••••");
    assert_eq!(partial_reveal("abcd", 1, 0), "a•••");
    assert_eq!(partial_reveal("", 50, 1), "");
}

#[test]
fn test_recovery_metadata_build_and_progressive_reveal() {
    let qas = vec![
        ("Q1?".to_string(), SecureString::from_str("jawaban-satu")),
        ("Q2?".to_string(), SecureString::from_str("jawaban-dua")),
    ];
    let password = SecureString::from_str("kentanggoreng123");

    let metadata = RecoveryMetadata::build(qas, &password, EncryptionMethod::Aes256Gcm).unwrap();
    assert_eq!(metadata.questions.len(), 2);
    assert_eq!(metadata.stages.len(), 2);
    assert!(metadata.is_configured());

    let stage1 = metadata.reveal_for_answers(&[SecureString::from_str("jawaban-satu")]).unwrap();
    assert_eq!(stage1.chars().count(), password.as_str().chars().count());
    assert!(stage1.chars().any(|c| c == '•'));

    let full = metadata
        .reveal_for_answers(&[SecureString::from_str("jawaban-satu"), SecureString::from_str("jawaban-dua")])
        .unwrap();
    assert_eq!(full, password.as_str());
}

#[test]
fn recovery_metadata_build_errors() {
    let password = SecureString::from_str("pw");
    let none: Vec<(String, SecureString)> = vec![];
    assert_eq!(
        RecoveryMetadata::build(none, &password, EncryptionMethod::Aes256Gcm).unwrap_err(),
        Error::InvalidItem("Recovery questions must be between 1 and 3".to_string())
    );
    let blank = vec![("Q?".to_string(), SecureString::from_str("   "))];
    assert_eq!(
        RecoveryMetadata::build(blank, &password, EncryptionMethod::Aes256Gcm).unwrap_err(),
        Error::InvalidItem("Security answer cannot be empty".to_string())
    );
    let qas = vec![("Q?".to_string(), SecureString::from_str("a"))];
    let m = RecoveryMetadata::build(qas, &password, EncryptionMethod::ChaCha20Poly1305).unwrap();
    assert_eq!(m.reveal_for_answers(&[]).unwrap(), "");
    assert_eq!(
        m.reveal_for_answers(&[SecureString::from_str("a"), SecureString::from_str("b")]).unwrap_err(),
        Error::SecurityQuestionFailed
    );
    assert_eq!(m.reveal_for_answers(&[SecureString::from_str("a")]).unwrap(), "pw");
    assert!(m.reveal_for_answers(&[SecureString::from_str("wrong")]).is_err());
    assert_eq!(
        RecoveryMetadata::compose_key_material(&[SecureString::from_str("x"), SecureString::from_str("y")]).as_str(),
        "x\ny"
    );
}

#[test]
fn test_tag_creation() {
    let tag = Tag::new("crypto").with_color("#f7931a").with_icon("󰞃");

    assert_eq!(tag.name, "crypto");
    assert_eq!(tag.color, Some("#f7931a".to_string()));
    assert_eq!(tag.icon, Some("󰞃".to_string()));
}

#[test]
fn test_vault_creation() {
    let vault = Vault::new("My Vault").with_description("Test vault");

    assert_eq!(vault.name, "My Vault");
    assert_eq!(vault.description, Some("Test vault".to_string()));
    assert!(vault.items.is_empty());
    assert!(vault.tags.is_empty());
}

#[test]
fn test_vault_items() {
    let mut vault = Vault::new("Test");

    let item = Item::password("GitHub", "secret123");
    let item_id = item.id;
    vault.add_item(item);

    assert_eq!(vault.item_count(), 1);
    assert!(vault.get_item(item_id).is_some());

    let removed = vault.remove_item(item_id);
    assert!(removed.is_some());
    assert_eq!(vault.item_count(), 0);
}

#[test]
fn test_vault_tags() {
    let mut vault = Vault::new("Test");

    let tag = Tag::new("crypto").with_color("#f7931a");
    let tag_id = tag.id;
    vault.add_tag(tag);

    let mut item = Item::crypto_seed("BTC", "seed words here");
    item.tags.push(tag_id);
    vault.add_item(item);

    let tagged = vault.items_with_tag(tag_id);
    assert_eq!(tagged.len(), 1);

    vault.remove_tag(tag_id);
    assert!(vault.get_tag(tag_id).is_none());
    assert!(vault.items[0].tags.is_empty());
}

#[test]
fn test_vault_favorites() {
    let mut vault = Vault::new("Test");

    vault.add_item(Item::password("Item 1", "p1").with_favorite(true));
    vault.add_item(Item::password("Item 2", "p2"));
    vault.add_item(Item::password("Item 3", "p3").with_favorite(true));

    let favorites = vault.favorite_items();
    assert_eq!(favorites.len(), 2);
    assert_eq!(vault.items_of_kind(ItemKind::Password).len(), 3);
    assert_eq!(vault.items_of_kind(ItemKind::Generic).len(), 0);
}

#[test]
fn test_vault_settings() {
    let settings = VaultSettings::default();

    assert_eq!(settings.auto_lock_timeout_secs, Some(300));
    assert_eq!(settings.clipboard_clear_secs, 60);
    assert_eq!(settings.default_item_kind, ItemKind::Generic);
}

#[test]
fn vault_security_questions_are_capped() {
    let mut vault = Vault::new("Q");
    assert!(!vault.has_security_questions());
    for i in 0..3 {
        let q = SecurityQuestion::new(&format!("Q{}?", i), &SecureString::from_str("a")).unwrap();
        assert!(vault.add_security_question(q));
    }
    let q = SecurityQuestion::new("Q4?", &SecureString::from_str("a")).unwrap();
    assert!(!vault.add_security_question(q));
    assert!(vault.has_security_questions());
}

#[test]
fn get_item_mut_changes_only_that_item() {
    let mut vault = Vault::new("Test");
    let a = Item::password("A", "pa");
    let b = Item::password("B", "pb");
    let (a_id, b_id) = (a.id, b.id);
    vault.add_item(a);
    vault.add_item(b);

    vault.get_item_mut(b_id).unwrap().title = "Renamed".to_string();
    assert_eq!(vault.get_item(b_id).unwrap().title, "Renamed");
    assert_eq!(vault.get_item(a_id).unwrap().title, "A");
    assert_eq!(vault.item_count(), 2);
    assert!(vault.get_item_mut(12345).is_none());
}

#[test]
fn recovery_hint_needs_the_answer_exactly_as_given() {
    let qas = vec![("Pet?".to_string(), SecureString::from_str("Rex"))];
    let password = SecureString::from_str("hunter42");
    let metadata = RecoveryMetadata::build(qas, &password, EncryptionMethod::ChaCha20Poly1305).unwrap();
    assert!(metadata.questions[0].verify(&SecureString::from_str("  rEX ")).unwrap());
    assert!(metadata.reveal_for_answers(&[SecureString::from_str("  rEX ")]).is_err());
    let full = metadata.reveal_for_answers(&[SecureString::from_str("Rex")]).unwrap();
    assert_eq!(full, "hunter42");
}
