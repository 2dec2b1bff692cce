use vault::app::creation::{keyfile_source, prepare_new_vault, KeyfileSource};
use vault::app::effect::Effect;
use vault::app::message::Message;
use vault::app::state::{AppMode, AppState, Screen, VaultState};
use vault::app::update::{keyfile_loaded, update};
use vault::crypto::cipher::EncryptionMethod;
use vault::crypto::kdf::{derive_key, Argon2Params};
use vault::crypto::secure_string::SecureString;
use vault::domain::security_question::{RecoveryMetadata, SecurityQuestion};
use vault::domain::vault::Vault;
use vault::storage::config::{AppConfig, IconColorChoice};
use vault::storage::registry::VaultRegistry;
use vault::ui::screens::settings::{
    apply_setting, get_current_sub_index, AddKeyfileAction, AddKeyfileStep, ChangePasswordAction, ManageRecoveryAction,
    ManageRecoveryStep, ManageRecoveryTarget, RecoverySetupAction, SecurityActionState, SettingKind,
};

fn settings_state(key: [u8; 32], salt: [u8; 32], recovery: Option<RecoveryMetadata>) -> AppState {
    let mut state = AppState::new(AppConfig::default(), VaultRegistry::new());
    let mut vault = Vault::new("Guarded");
    if let Some(m) = &recovery {
        vault.security_questions = m.questions.clone();
    }
    state.vault_state = Some(VaultState::new(
        vault,
        "/tmp/guarded.vault".to_string(),
        key,
        salt,
        false,
        EncryptionMethod::Aes256Gcm,
        recovery,
    ));
    state.mode = AppMode::Unlocked;
    state.screen = Screen::Settings;
    state
}

fn type_text(state: &mut AppState, text: &str) {
    state.ui_state.input_buffer.clear();
    for c in text.chars() {
        let _ = update(state, Message::InputChar(c));
    }
}

/// Questions whose answers are never checked: enough for the list steps.
fn unchecked_metadata(texts: &[&str]) -> RecoveryMetadata {
    RecoveryMetadata {
        questions: texts
            .iter()
            .map(|t| SecurityQuestion { question: t.to_string(), answer_hash: vec![0; 32], salt: [0; 32] })
            .collect(),
        stages: vec![],
        max_attempts: 5,
        encryption_method: EncryptionMethod::Aes256Gcm,
    }
}

fn manage_action_at_list(selected: usize) -> ManageRecoveryAction {
    let mut a = ManageRecoveryAction::default();
    a.step = ManageRecoveryStep::QuestionList;
    a.current_password = Some("pw".to_string());
    a.selected_idx = selected;
    a
}

fn manage_action(state: &AppState) -> &ManageRecoveryAction {
    match &state.settings_state.security_action {
        Some(SecurityActionState::ManageRecovery(a)) => a,
        _ => panic!("recovery workflow expected"),
    }
}

#[test]
fn settings_list_has_security_workflows_and_icon_color() {
    let all = SettingKind::all();
    assert!(all.contains(&SettingKind::AddKeyfile));
    assert!(all.contains(&SettingKind::ManageRecovery));
    assert!(all.contains(&SettingKind::IconColor));
    assert_eq!(SettingKind::IconColor.label(), "Icon Color");

    let mut state = settings_state([0; 32], [0; 32], None);
    let index = all.iter().position(|k| *k == SettingKind::IconColor).unwrap();
    assert_eq!(get_current_sub_index(&state, index), 0);
    apply_setting(&mut state, index, 3);
    assert_eq!(state.config.icon_color, IconColorChoice::Blue);
    assert_eq!(get_current_sub_index(&state, index), 3);

    let index = all.iter().position(|k| *k == SettingKind::ManageRecovery).unwrap();
    state.settings_state.selected = index;
    let effect = update(&mut state, Message::InputSubmit);
    assert!(matches!(effect, Effect::Nothing));
    assert!(matches!(manage_action(&state).step, ManageRecoveryStep::VerifyPassword));
    assert!(state.ui_state.input_buffer.masked);
}

#[test]
fn add_keyfile_rekeys_the_vault() {
    let salt = [9u8; 32];
    let key = derive_key(&SecureString::from_str("pw"), None, &salt, &Argon2Params::default()).unwrap();
    let mut state = settings_state(key, salt, None);
    state.settings_state.security_action = Some(SecurityActionState::AddKeyfile(AddKeyfileAction::default()));

    let _ = update(&mut state, Message::InputSubmit);
    assert_eq!(state.login_screen.error_message.as_deref(), Some("Current password cannot be empty"));

    type_text(&mut state, "pw");
    let _ = update(&mut state, Message::InputSubmit);
    match &state.settings_state.security_action {
        Some(SecurityActionState::AddKeyfile(a)) => assert_eq!(a.step, AddKeyfileStep::NewKeyfilePath),
        _ => panic!("key-file workflow expected"),
    }

    type_text(&mut state, "  /tmp/new.key ");
    let effect = update(&mut state, Message::InputSubmit);
    match effect {
        Effect::ReadKeyfile { path } => assert_eq!(path, "/tmp/new.key"),
        _ => panic!("a key file read expected"),
    }

    let data = vec![7u8; 32];
    let effect = keyfile_loaded(&mut state, "/tmp/new.key".to_string(), data.clone());
    let expected = derive_key(&SecureString::from_str("pw"), Some(&data), &salt, &Argon2Params::default()).unwrap();
    let vs = state.vault_state.as_ref().unwrap();
    assert!(vs.has_keyfile);
    assert!(vs.is_dirty);
    assert_eq!(vs.encryption_key, expected);
    assert!(state.settings_state.security_action.is_none());
    match effect {
        Effect::WriteVaultFile { has_keyfile, key, .. } => {
            assert!(has_keyfile);
            assert_eq!(key, expected);
        }
        _ => panic!("a save expected"),
    }
}

#[test]
fn question_list_edits_a_question_text() {
    let mut state = settings_state([0; 32], [0; 32], Some(unchecked_metadata(&["First?", "Second?"])));
    state.settings_state.security_action = Some(SecurityActionState::ManageRecovery(manage_action_at_list(0)));

    let _ = update(&mut state, Message::SelectNextItem);
    assert_eq!(manage_action(&state).selected_idx, 1);
    let _ = update(&mut state, Message::SelectNextItem);
    assert_eq!(manage_action(&state).selected_idx, 1);

    type_text(&mut state, "e");
    let _ = update(&mut state, Message::InputSubmit);
    assert!(matches!(manage_action(&state).target, ManageRecoveryTarget::EditQuestionText(1)));
    assert_eq!(state.ui_state.input_buffer.text, "Second?");

    type_text(&mut state, "  Renamed?  ");
    let effect = update(&mut state, Message::InputSubmit);
    assert!(matches!(effect, Effect::WriteVaultFile { .. }));
    let vs = state.vault_state.as_ref().unwrap();
    assert_eq!(vs.recovery_metadata.as_ref().unwrap().questions[1].question, "Renamed?");
    assert_eq!(vs.vault.security_questions[1].question, "Renamed?");
    assert!(state.settings_state.security_action.is_none());
}

#[test]
fn question_list_guards_and_answer_collection() {
    let mut state = settings_state([0; 32], [0; 32], Some(unchecked_metadata(&["A?", "B?", "C?"])));
    state.settings_state.security_action = Some(SecurityActionState::ManageRecovery(manage_action_at_list(0)));
    type_text(&mut state, "n");
    let _ = update(&mut state, Message::InputSubmit);
    assert_eq!(state.login_screen.error_message.as_deref(), Some("Maximum recovery questions (3) reached"));

    state.settings_state.security_action = Some(SecurityActionState::ManageRecovery(manage_action_at_list(0)));
    type_text(&mut state, "d");
    let _ = update(&mut state, Message::InputSubmit);
    let a = manage_action(&state);
    assert!(matches!(a.step, ManageRecoveryStep::CollectExistingAnswer));
    assert_eq!(a.collected_answers.len(), 2);
    assert_eq!(state.login_screen.error_message.as_deref(), Some("Enter answer for: B?"));

    let _ = update(&mut state, Message::InputSubmit);
    assert_eq!(state.login_screen.error_message.as_deref(), Some("Answer cannot be empty"));
    type_text(&mut state, "b");
    let _ = update(&mut state, Message::InputSubmit);
    assert_eq!(manage_action(&state).collect_idx, 1);
    assert_eq!(state.login_screen.error_message.as_deref(), Some("Enter answer for: C?"));
}

#[test]
fn deleting_the_only_question_disables_recovery_after_yes() {
    let mut state = settings_state([0; 32], [0; 32], Some(unchecked_metadata(&["Only?"])));
    state.settings_state.security_action = Some(SecurityActionState::ManageRecovery(manage_action_at_list(0)));
    type_text(&mut state, "d");
    let _ = update(&mut state, Message::InputSubmit);
    assert!(matches!(manage_action(&state).step, ManageRecoveryStep::ConfirmDisableRecovery));

    type_text(&mut state, "no");
    let effect = update(&mut state, Message::InputSubmit);
    assert!(matches!(effect, Effect::Nothing));
    assert_eq!(state.login_screen.error_message.as_deref(), Some("Type YES (uppercase) to confirm"));

    type_text(&mut state, " yes ");
    let effect = update(&mut state, Message::InputSubmit);
    assert!(matches!(effect, Effect::WriteVaultFile { recovery_metadata: None, .. }));
    let vs = state.vault_state.as_ref().unwrap();
    assert!(vs.recovery_metadata.is_none());
    assert!(vs.vault.security_questions.is_empty());
}

#[test]
fn adding_a_first_question_builds_recovery() {
    let mut state = settings_state([0; 32], [0; 32], None);
    state.settings_state.security_action = Some(SecurityActionState::ManageRecovery(manage_action_at_list(0)));
    type_text(&mut state, "n");
    let _ = update(&mut state, Message::InputSubmit);
    assert!(matches!(manage_action(&state).step, ManageRecoveryStep::AddQuestionText));
    type_text(&mut state, " Pet? ");
    let _ = update(&mut state, Message::InputSubmit);
    assert!(matches!(manage_action(&state).step, ManageRecoveryStep::AddAnswerText));
    assert!(state.ui_state.input_buffer.masked);
    type_text(&mut state, "Rex");
    let effect = update(&mut state, Message::InputSubmit);
    assert!(matches!(effect, Effect::WriteVaultFile { .. }));
    let vs = state.vault_state.as_ref().unwrap();
    let m = vs.recovery_metadata.as_ref().unwrap();
    assert_eq!(m.questions.len(), 1);
    assert_eq!(m.questions[0].question, "Pet?");
    assert!(m.questions[0].verify(&SecureString::from_str("rex")).unwrap());
    assert_eq!(vs.vault.security_questions.len(), 1);
}

fn keyed_state() -> (AppState, [u8; 32]) {
    let salt = [5u8; 32];
    let key = derive_key(&SecureString::from_str("pw"), None, &salt, &Argon2Params::default()).unwrap();
    (settings_state(key, salt, None), key)
}

#[test]
fn change_password_rekeys_and_resets_recovery() {
    let (mut state, old_key) = keyed_state();
    state.settings_state.security_action = Some(SecurityActionState::ChangePassword(ChangePasswordAction::default()));

    type_text(&mut state, "pw");
    let _ = update(&mut state, Message::InputSubmit);
    type_text(&mut state, "abc");
    let _ = update(&mut state, Message::InputSubmit);
    assert_eq!(state.login_screen.error_message.as_deref(), Some("New password must be at least 4 characters"));
    type_text(&mut state, "newpw");
    let _ = update(&mut state, Message::InputSubmit);
    type_text(&mut state, "other");
    let _ = update(&mut state, Message::InputSubmit);
    assert_eq!(state.login_screen.error_message.as_deref(), Some("New password confirmation does not match"));

    type_text(&mut state, "newpw");
    let effect = update(&mut state, Message::InputSubmit);
    assert!(matches!(effect, Effect::WriteVaultFile { recovery_metadata: None, .. }));
    let vs = state.vault_state.as_ref().unwrap();
    assert_ne!(vs.encryption_key, old_key);
    assert!(vs.is_dirty);
    assert!(state.settings_state.security_action.is_none());
}

#[test]
fn recovery_setup_checks_count_and_turns_off_with_zero() {
    let (mut state, _) = keyed_state();
    state.settings_state.security_action =
        Some(SecurityActionState::ConfigureRecovery(RecoverySetupAction::default()));
    type_text(&mut state, "pw");
    let _ = update(&mut state, Message::InputSubmit);
    type_text(&mut state, "7");
    let _ = update(&mut state, Message::InputSubmit);
    assert_eq!(state.login_screen.error_message.as_deref(), Some("Enter recovery question count from 0 to 3"));
    type_text(&mut state, " 0 ");
    let effect = update(&mut state, Message::InputSubmit);
    assert!(matches!(effect, Effect::WriteVaultFile { recovery_metadata: None, .. }));
    assert!(state.settings_state.security_action.is_none());
}

#[test]
fn recovery_setup_builds_one_question() {
    let (mut state, _) = keyed_state();
    state.settings_state.security_action =
        Some(SecurityActionState::ConfigureRecovery(RecoverySetupAction::default()));
    type_text(&mut state, "pw");
    let _ = update(&mut state, Message::InputSubmit);
    type_text(&mut state, "1");
    let _ = update(&mut state, Message::InputSubmit);
    type_text(&mut state, "   ");
    let _ = update(&mut state, Message::InputSubmit);
    assert_eq!(state.login_screen.error_message.as_deref(), Some("Security question cannot be empty"));
    type_text(&mut state, "City?");
    let _ = update(&mut state, Message::InputSubmit);
    type_text(&mut state, "Paris");
    let effect = update(&mut state, Message::InputSubmit);
    assert!(matches!(effect, Effect::WriteVaultFile { .. }));
    let m = state.vault_state.as_ref().unwrap().recovery_metadata.as_ref().unwrap();
    assert_eq!(m.questions.len(), 1);
    assert_eq!(m.questions[0].question, "City?");
    assert_eq!(m.stages.len(), 1);
}

#[test]
fn short_old_keyfile_is_refused_before_checking_the_password() {
    let mut state = settings_state([0u8; 32], [0u8; 32], None);
    let vs = state.vault_state.as_mut().unwrap();
    vs.has_keyfile = true;
    let r = vault::app::update::verify_master_credentials(vs, "pw", Some(&[1u8, 2, 3]));
    assert_eq!(
        r.unwrap_err(),
        "Failed to read keyfile: Invalid keyfile: Key file must be at least 8 bytes".to_string()
    );
    let r = vault::app::update::verify_master_credentials(vs, "pw", None);
    assert_eq!(r.unwrap_err(), "This vault requires a keyfile path".to_string());
    let r = vault::app::update::verify_master_credentials(vs, "   ", Some(&[1u8; 16]));
    assert_eq!(r.unwrap_err(), "Current password cannot be empty".to_string());
}

#[test]
fn new_vault_key_file_source_and_key() {
    assert_eq!(keyfile_source(false, "/x"), KeyfileSource::NoKeyfile);
    assert_eq!(keyfile_source(true, "   "), KeyfileSource::Generate);
    assert_eq!(keyfile_source(true, " /k.key "), KeyfileSource::Load("/k.key".to_string()));
    let password = SecureString::from_str("correct horse");
    let nv = prepare_new_vault("Fresh", &password, Some(&[9u8; 32]), EncryptionMethod::Aes256Gcm, vec![]).unwrap();
    assert_eq!(nv.vault.name, "Fresh");
    assert!(nv.vault.items.is_empty());
    assert!(nv.has_keyfile);
    assert!(nv.recovery_metadata.is_none());
    let again = derive_key(&password, Some(&[9u8; 32]), &nv.salt, &Argon2Params::default()).unwrap();
    assert_eq!(again, nv.key);
    let blank = vec![("Q?".to_string(), SecureString::from_str(" "))];
    assert!(prepare_new_vault("Other", &password, None, EncryptionMethod::Aes256Gcm, blank).is_err());
}
