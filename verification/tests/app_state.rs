use vault::app::effect::Effect;
use vault::app::message::{ConfigUpdate, ItemUpdates, Message, ScrollDirection};
use vault::app::state::{
    format_custom_fields_for_form,
    AppMode, AppState, ClipboardState, FilterState, FloatingWindow, InputBuffer, ItemSnapshot, Notification,
    NotificationLevel, Pane, Screen, UndoEntry, VaultState,
};
use vault::app::update::{
    apply_config_update, apply_item_updates, collect_idx_to_actual, continue_unlock, create_item_from_form,
    create_updates_from_form, get_filtered_items, parse_custom_fields, parse_single_custom_field, update,
};
use vault::crypto::cipher::EncryptionMethod;
use vault::crypto::secure_string::SecureString;
use vault::domain::item::{CustomField, CustomFieldType, Item, ItemContent, ItemKind};
use vault::domain::vault::Vault;
use vault::storage::config::{AppConfig, ThemeChoice};
use vault::storage::registry::VaultRegistry;
use vault::ui::app::App;
use vault::ui::widgets::edit_form::{EditFormState, FormField};

#[test]
fn test_effect_none() {
    let effect = Effect::none();
    assert!(effect.is_none());
}

#[test]
fn test_effect_batch_empty() {
    let effect = Effect::batch(vec![]);
    assert!(effect.is_none());
}

#[test]
fn test_effect_batch_single() {
    let effect = Effect::batch(vec![Effect::Exit]);
    assert!(matches!(effect, Effect::Exit));
}

#[test]
fn test_effect_batch_flattens() {
    let effect = Effect::batch(vec![
        Effect::Nothing,
        Effect::batch(vec![Effect::ClearClipboard, Effect::Exit]),
        Effect::Nothing,
    ]);

    match effect {
        Effect::Batch(effects) => {
            assert_eq!(effects.len(), 2);
            assert!(matches!(effects[0], Effect::ClearClipboard));
            assert!(matches!(effects[1], Effect::Exit));
        },
        _ => panic!("Expected Batch"),
    }
}

#[test]
fn test_item_updates_builder() {
    let updates = ItemUpdates::new().title("New Title".to_string()).favorite(true);

    assert_eq!(updates.title, Some("New Title".to_string()));
    assert_eq!(updates.favorite, Some(true));
    assert!(updates.content.is_none());
    assert!(!updates.is_empty());
}

#[test]
fn test_item_updates_empty() {
    let updates = ItemUpdates::new();
    assert!(updates.is_empty());
}

#[test]
fn test_message_variants() {
    let _msg = Message::Navigate(Screen::Main);
    let _msg = Message::Tick;
    let _msg = Message::Scroll(ScrollDirection::Down);
}

#[test]
fn test_app_state_creation() {
    let config = AppConfig::default();
    let registry = VaultRegistry::default();
    let state = AppState::new(config, registry);

    assert_eq!(state.mode, AppMode::Locked);
    assert_eq!(state.screen, Screen::Login);
    assert!(!state.is_unlocked());
    assert!(!state.should_quit);
}

#[test]
fn test_input_buffer() {
    let mut buf = InputBuffer::new();

    buf.insert('H');
    buf.insert('e');
    buf.insert('l');
    buf.insert('l');
    buf.insert('o');

    assert_eq!(buf.text, "Hello");
    assert_eq!(buf.cursor, 5);

    buf.backspace();
    assert_eq!(buf.text, "Hell");

    buf.home();
    assert_eq!(buf.cursor, 0);

    buf.move_right();
    buf.insert('X');
    assert_eq!(buf.text, "HXell");
}

#[test]
fn test_input_buffer_masked() {
    let mut buf = InputBuffer::masked();
    buf.insert('s');
    buf.insert('e');
    buf.insert('c');
    buf.insert('r');
    buf.insert('e');
    buf.insert('t');

    assert_eq!(buf.text, "secret");
    assert_eq!(buf.display(), "••••••");
}

#[test]
fn input_buffer_multibyte_editing() {
    let mut buf = InputBuffer::new();
    buf.insert('é');
    buf.insert('a');
    assert_eq!(buf.cursor, 3);
    buf.move_left();
    assert_eq!(buf.cursor, 2);
    buf.move_left();
    assert_eq!(buf.cursor, 0);
    buf.move_left();
    assert_eq!(buf.cursor, 0);
    buf.delete();
    assert_eq!(buf.text, "a");
    buf.end();
    assert_eq!(buf.cursor, 1);
    buf.move_right();
    assert_eq!(buf.cursor, 1);
    buf.insert('€');
    assert_eq!(buf.text, "a€");
    assert_eq!(buf.cursor, 4);
    buf.backspace();
    assert_eq!(buf.text, "a");
    assert_eq!(buf.cursor, 1);
    buf.clear();
    assert_eq!(buf.text, "");
    assert_eq!(buf.display(), "");
}

#[test]
fn test_clipboard_state() {
    let mut clip = ClipboardState::default();
    assert!(!clip.has_secure_content);
    assert!(!clip.should_clear());

    clip.set_secure(0);
    assert!(clip.has_secure_content);

    assert!(clip.should_clear());

    clip.clear();
    assert!(!clip.has_secure_content);
}

#[test]
fn test_filter_state() {
    let mut filter = FilterState::default();
    assert!(!filter.is_active());

    filter.favorites_only = true;
    assert!(filter.is_active());

    filter.clear();
    assert!(!filter.is_active());
}

#[test]
fn test_notification() {
    let before = chrono::Utc::now().timestamp_millis();
    let notif = Notification::new("Test message", NotificationLevel::Success);
    assert!(notif.expires_at > before);
    assert_eq!(notif.level, NotificationLevel::Success);
}

fn plain_vault_state() -> VaultState {
    VaultState::new(
        Vault::new("Test Vault"),
        "/tmp/test.vault".to_string(),
        [0; 32],
        [0; 32],
        false,
        EncryptionMethod::Aes256Gcm,
        None,
    )
}

#[test]
fn test_push_undo() {
    let mut vault_state = plain_vault_state();

    let item = Item::new("Test Item", ItemKind::Generic, ItemContent::Generic { value: "test".to_string() });
    let snapshot = ItemSnapshot::from_item(&item);
    let undo_entry1 =
        UndoEntry { description: "First action".to_string(), item_id: item.id, previous_state: snapshot.clone() };
    let undo_entry2 =
        UndoEntry { description: "Second action".to_string(), item_id: item.id, previous_state: snapshot.clone() };

    vault_state.undo_stack.push(undo_entry1);
    vault_state.redo_stack.push(undo_entry2);

    assert_eq!(vault_state.undo_stack.len(), 1);
    assert_eq!(vault_state.redo_stack.len(), 1);

    let new_undo_entry = UndoEntry { description: "New action".to_string(), item_id: item.id, previous_state: snapshot };

    vault_state.push_undo(new_undo_entry);

    assert_eq!(vault_state.undo_stack.len(), 2);
    assert_eq!(vault_state.redo_stack.len(), 0);
}

fn test_state() -> AppState {
    let config = AppConfig::default();
    let registry = VaultRegistry::default();
    let mut state = AppState::new(config, registry);

    let mut vault = Vault::new("Test Vault");
    vault.add_item(Item::password("GitHub", "secret123"));
    vault.add_item(Item::password("AWS", "aws-key"));

    state.vault_state = Some(VaultState::new(
        vault,
        "/test/vault.vlt".to_string(),
        [0u8; 32],
        [0u8; 32],
        false,
        EncryptionMethod::Aes256Gcm,
        None,
    ));
    state.mode = AppMode::Unlocked;
    state.screen = Screen::Main;

    state
}

fn login_state_with_vault(path: &str, name: &str) -> AppState {
    let config = AppConfig::default();
    let mut registry = VaultRegistry::default();
    registry.add_or_update(path, name);
    let mut state = AppState::new(config, registry);
    state.screen = Screen::Login;
    state
}

fn first_id(state: &AppState) -> u128 {
    state.vault_state.as_ref().unwrap().vault.items[0].id
}

#[test]
fn test_navigate() {
    let mut state = test_state();
    let effect = update(&mut state, Message::Navigate(Screen::Settings));

    assert_eq!(state.screen, Screen::Settings);
    assert!(effect.is_none());
}

#[test]
fn test_select_item() {
    let mut state = test_state();
    let item_id = first_id(&state);

    let effect = update(&mut state, Message::SelectItem(item_id));

    assert_eq!(state.vault_state.as_ref().unwrap().selected_item_id, Some(item_id));
    assert!(effect.is_none());
}

#[test]
fn test_toggle_favorite() {
    let mut state = test_state();
    let item_id = first_id(&state);

    assert!(!state.vault_state.as_ref().unwrap().vault.items[0].favorite);

    update(&mut state, Message::ToggleFavorite(item_id));

    assert!(state.vault_state.as_ref().unwrap().vault.items[0].favorite);
    assert!(state.is_dirty());
}

#[test]
fn test_undo_redo() {
    let mut state = test_state();
    let item_id = first_id(&state);

    update(&mut state, Message::UpdateItem { id: item_id, updates: ItemUpdates::new().title("Changed Title".to_string()) });

    assert_eq!(state.vault_state.as_ref().unwrap().vault.items[0].title, "Changed Title");
    assert!(state.vault_state.as_ref().unwrap().can_undo());

    update(&mut state, Message::Undo);
    assert_eq!(state.vault_state.as_ref().unwrap().vault.items[0].title, "GitHub");
    assert!(state.vault_state.as_ref().unwrap().can_redo());

    update(&mut state, Message::Redo);
    assert_eq!(state.vault_state.as_ref().unwrap().vault.items[0].title, "Changed Title");
}

#[test]
fn undo_of_delete_restores_item() {
    let mut state = test_state();
    let item_id = first_id(&state);
    update(&mut state, Message::ConfirmDeleteItem(item_id));
    assert_eq!(state.vault_state.as_ref().unwrap().vault.items.len(), 1);
    update(&mut state, Message::Undo);
    let items = &state.vault_state.as_ref().unwrap().vault.items;
    assert_eq!(items.len(), 2);
    assert_eq!(items[1].id, item_id);
    assert_eq!(items[1].title, "GitHub");
}

#[test]
fn test_search() {
    let mut state = test_state();

    update(&mut state, Message::OpenSearch);
    assert!(state.ui_state.has_floating_window());

    update(&mut state, Message::UpdateSearchQuery("Git".to_string()));
    if let Some(FloatingWindow::Search { state: search_state }) = &state.ui_state.floating_window {
        assert_eq!(search_state.results.len(), 1);
    } else {
        panic!("Expected Search floating window");
    }

    update(&mut state, Message::UpdateSearchQuery("".to_string()));
    if let Some(FloatingWindow::Search { state: search_state }) = &state.ui_state.floating_window {
        assert!(search_state.results.is_empty());
    }
}

#[test]
fn test_filter() {
    let mut state = test_state();

    let item_id = first_id(&state);
    update(&mut state, Message::ToggleFavorite(item_id));

    update(&mut state, Message::ToggleFavoritesFilter);
    assert!(state.ui_state.filter.is_active());

    let filtered = get_filtered_items(&state);
    assert_eq!(filtered.len(), 1);

    update(&mut state, Message::ClearFilters);
    assert!(!state.ui_state.filter.is_active());
}

#[test]
fn test_toggle_reveal() {
    let mut state = test_state();
    assert!(!state.ui_state.content_revealed);

    update(&mut state, Message::ToggleContentReveal);
    assert!(state.ui_state.content_revealed);

    update(&mut state, Message::ToggleContentReveal);
    assert!(!state.ui_state.content_revealed);
}

#[test]
fn test_tick_does_not_refresh_activity() {
    let mut state = test_state();
    let old_activity = std::time::Instant::now() - std::time::Duration::from_secs(10);
    state.vault_state.as_mut().unwrap().last_activity = old_activity;

    update(&mut state, Message::Tick);

    let current = state.vault_state.as_ref().unwrap().last_activity;
    assert_eq!(current, old_activity);
}

#[test]
fn test_lock_vault_dirty_defers_lock_until_save() {
    let mut state = test_state();
    state.vault_state.as_mut().unwrap().is_dirty = true;

    let effect = update(&mut state, Message::LockVault);

    assert!(matches!(effect, Effect::WriteVaultFile { .. }));
    assert!(state.pending_lock);
    assert!(state.vault_state.is_some());
    assert_eq!(state.mode, AppMode::Unlocked);
}

#[test]
fn test_lock_vault_clean_locks_immediately() {
    let mut state = test_state();
    state.vault_state.as_mut().unwrap().is_dirty = false;

    let effect = update(&mut state, Message::LockVault);

    assert!(effect.is_none());
    assert!(!state.pending_lock);
    assert!(state.vault_state.is_none());
    assert_eq!(state.mode, AppMode::Locked);
    assert_eq!(state.screen, Screen::Login);
}

#[test]
fn test_save_vault_keeps_dirty_until_save_result() {
    let mut state = test_state();
    state.vault_state.as_mut().unwrap().is_dirty = true;

    let effect = update(&mut state, Message::SaveVault);

    assert!(matches!(effect, Effect::WriteVaultFile { .. }));
    assert!(state.vault_state.as_ref().unwrap().is_dirty);
}

#[test]
fn test_unlock_vault_message_emits_read_effect() {
    let mut state = login_state_with_vault("/tmp/test-unlock.vault", "Test");

    let effect = update(
        &mut state,
        Message::UnlockVault { password: SecureString::from_str("password123"), keyfile: None },
    );

    match effect {
        Effect::ReadVaultFile { path, password, keyfile_path } => {
            assert_eq!(path, "/tmp/test-unlock.vault");
            assert_eq!(password.as_str(), "password123");
            assert!(keyfile_path.is_none());
        },
        _ => panic!("Expected ReadVaultFile effect"),
    }
}

#[test]
fn test_password_submit_switches_to_keyfile_mode_for_keyfile_vault() {
    let mut state = login_state_with_vault("/tmp/keyfile-required.vault", "Keyfile Vault");
    state.login_screen.entering_password = true;
    state.ui_state.input_buffer.text = "password123".to_string();
    state.ui_state.input_buffer.cursor = state.ui_state.input_buffer.text.len();
    state.ui_state.input_buffer.masked = true;

    let effect = update(&mut state, Message::InputSubmit);
    let password = match effect {
        Effect::CheckKeyfileRequired { path, password } => {
            assert_eq!(path, "/tmp/keyfile-required.vault");
            password.as_str().to_string()
        },
        _ => panic!("Expected CheckKeyfileRequired effect"),
    };

    let effect = continue_unlock(&mut state, password, Ok(true));

    assert!(effect.is_none());
    assert!(!state.login_screen.entering_password);
    assert!(state.login_screen.entering_keyfile_path);
    assert!(state.login_screen.pending_unlock_password.is_some());
    assert!(!state.ui_state.input_buffer.masked);
}

#[test]
fn test_keyfile_submit_emits_read_effect_with_loaded_keyfile() {
    let mut state = login_state_with_vault("/tmp/needs-keyfile.vault", "Keyfile Vault");
    state.login_screen.entering_keyfile_path = true;
    state.login_screen.pending_unlock_password = Some(SecureString::from_str("password123"));
    state.ui_state.input_buffer.text = "/tmp/unlock.key".to_string();
    state.ui_state.input_buffer.cursor = state.ui_state.input_buffer.text.len();
    state.ui_state.input_buffer.masked = false;

    let effect = update(&mut state, Message::InputSubmit);

    match effect {
        Effect::ReadVaultFile { path, password, keyfile_path } => {
            assert_eq!(path, "/tmp/needs-keyfile.vault");
            assert_eq!(password.as_str(), "password123");
            assert_eq!(keyfile_path, Some("/tmp/unlock.key".to_string()));
        },
        _ => panic!("Expected ReadVaultFile effect"),
    }
}

#[test]
fn test_cancel_input_from_keyfile_mode_returns_to_password_mode() {
    let mut state = login_state_with_vault("/tmp/test.vault", "Test");
    state.login_screen.entering_password = false;
    state.login_screen.entering_keyfile_path = true;
    state.login_screen.pending_unlock_password = Some(SecureString::from_str("password123"));
    state.ui_state.input_buffer.masked = false;
    state.ui_state.input_buffer.text = "/tmp/keyfile".to_string();
    state.ui_state.input_buffer.cursor = 0;

    update(&mut state, Message::CancelInput);

    assert!(state.login_screen.entering_password);
    assert!(!state.login_screen.entering_keyfile_path);
    assert!(state.login_screen.pending_unlock_password.is_none());
    assert!(state.ui_state.input_buffer.masked);
    assert!(state.ui_state.input_buffer.text.is_empty());
}

#[test]
fn test_parse_custom_fields_success() {
    let parsed = parse_custom_fields("text:username=alice;secret:token=abc123;number:port=443").unwrap();
    assert_eq!(parsed.len(), 3);
    assert_eq!(parsed[0].key, "username");
    assert_eq!(parsed[1].field_type, CustomFieldType::Secret);
    assert_eq!(parsed[2].value, "443");
}

#[test]
fn test_parse_custom_fields_rejects_invalid_type() {
    let err = parse_custom_fields("unknown:key=value").expect_err("expected unsupported type to return an error");
    assert!(err.contains("Unsupported custom field type"));
}

#[test]
fn custom_field_errors_are_exact() {
    assert_eq!(parse_custom_fields("  ").unwrap().len(), 0);
    assert_eq!(parse_custom_fields(" ; ;text:a=b ;").unwrap().len(), 1);
    assert_eq!(
        parse_single_custom_field("novalue").unwrap_err(),
        "Invalid custom field format 'novalue'. Use type:key=value"
    );
    assert_eq!(
        parse_single_custom_field("text:keyonly").unwrap_err(),
        "Invalid custom field format 'text:keyonly'. Use type:key=value"
    );
    assert_eq!(parse_single_custom_field("url: =x").unwrap_err(), "Custom field key cannot be empty");
    let f = parse_single_custom_field("URL: site = https://a=b ").unwrap();
    assert_eq!(f.key, "site");
    assert_eq!(f.value, "https://a=b");
    assert_eq!(f.field_type, CustomFieldType::Url);
    assert_eq!(
        parse_custom_fields("text:a=1;Bogus:b=2;x").unwrap_err(),
        "Unsupported custom field type 'Bogus'. Use text, secret, url, or number"
    );
}

#[test]
fn test_create_custom_item_from_form() {
    let mut form = EditFormState::new(ItemKind::Custom, true);
    let title_idx = form.fields.iter().position(|f| *f == FormField::Title).unwrap();
    let fields_idx = form.fields.iter().position(|f| *f == FormField::CustomFields).unwrap();

    form.values[title_idx] = "Infra".to_string();
    form.values[fields_idx] = "text:role=admin;secret:token=xyz".to_string();

    let item = create_item_from_form(&form).expect("custom form should be valid");
    match item.content {
        ItemContent::Custom { fields } => {
            assert_eq!(fields.len(), 2);
            assert_eq!(fields[1].field_type, CustomFieldType::Secret);
        },
        _ => panic!("expected custom content"),
    }
}

#[test]
fn form_to_item_and_updates() {
    let mut form = EditFormState::new(ItemKind::Password, true);
    form.values[0] = "Bank".to_string();
    form.values[2] = "hunter2".to_string();
    form.values[5] = "remember".to_string();
    let item = create_item_from_form(&form).unwrap();
    assert_eq!(item.title, "Bank");
    assert_eq!(item.notes, Some("remember".to_string()));
    match &item.content {
        ItemContent::Password { username, password, url, totp_secret } => {
            assert!(username.is_none());
            assert_eq!(password, "hunter2");
            assert!(url.is_none());
            assert!(totp_secret.is_none());
        },
        _ => panic!("expected password content"),
    }
    let updates = create_updates_from_form(&form).unwrap();
    assert_eq!(updates.title, Some("Bank".to_string()));
    assert_eq!(updates.notes, Some(Some("remember".to_string())));
    let mut target = Item::generic("Old", "v");
    apply_item_updates(&mut target, updates);
    assert_eq!(target.title, "Bank");
    assert!(matches!(target.content, ItemContent::Password { .. }));
    let note_form = EditFormState::new(ItemKind::SecureNote, true);
    assert_eq!(create_item_from_form(&note_form).unwrap().title, "");
}

#[test]
fn config_updates_and_index_mapping() {
    let mut config = AppConfig::default();
    apply_config_update(&mut config, ConfigUpdate::SetTheme(ThemeChoice::TokyoNightDay));
    apply_config_update(&mut config, ConfigUpdate::SetClipboardTimeout(5));
    assert_eq!(config.theme, ThemeChoice::TokyoNightDay);
    assert_eq!(config.clipboard_timeout_secs, 5);
    assert_eq!(collect_idx_to_actual(0, 0, 3), 1);
    assert_eq!(collect_idx_to_actual(1, 0, 3), 2);
    assert_eq!(collect_idx_to_actual(0, 2, 3), 0);
    assert_eq!(collect_idx_to_actual(2, 0, 3), 0);
}

#[test]
fn copy_sensitive_schedules_clear_and_quit_guards_dirty() {
    let mut state = test_state();
    let effect = update(&mut state, Message::CopyToClipboard { content: "x".to_string(), is_sensitive: true });
    match effect {
        Effect::Batch(v) => {
            assert_eq!(v.len(), 2);
            assert!(matches!(v[1], Effect::ScheduleClipboardClear { delay_secs: 60 }));
        },
        _ => panic!("expected batch"),
    }
    assert!(state.clipboard_state.has_secure_content);
    state.vault_state.as_mut().unwrap().is_dirty = true;
    assert!(update(&mut state, Message::Quit).is_none());
    assert!(!state.should_quit);
    assert!(matches!(update(&mut state, Message::ForceQuit), Effect::Exit));
    assert!(state.should_quit);
}

#[test]
fn navigation_moves_selection_within_items() {
    let mut state = test_state();
    update(&mut state, Message::SelectNextItem);
    let second = state.vault_state.as_ref().unwrap().vault.items[1].id;
    assert_eq!(state.vault_state.as_ref().unwrap().selected_item_id, Some(second));
    update(&mut state, Message::SelectNextItem);
    assert_eq!(state.vault_state.as_ref().unwrap().selected_item_id, Some(second));
    update(&mut state, Message::SelectPrevItem);
    assert_eq!(state.vault_state.as_ref().unwrap().selected_item_id, Some(first_id(&state)));
    update(&mut state, Message::Scroll(ScrollDirection::Bottom));
    assert_eq!(state.ui_state.list_scroll_offset, 1);
    update(&mut state, Message::FocusPane(Pane::Detail));
    assert_eq!(state.ui_state.focused_pane, Pane::Detail);
}

#[test]
fn create_vault_form_flow() {
    let mut state = login_state_with_vault("/tmp/x.vault", "X");
    update(&mut state, Message::StartCreateVault);
    assert!(state.login_screen.creating_vault);
    for c in "Mine".chars() {
        update(&mut state, Message::InputChar(c));
    }
    assert_eq!(state.login_screen.create_vault_form.name.text, "Mine");
    update(&mut state, Message::InputSubmit);
    assert_eq!(
        state.login_screen.create_vault_form.focused_field,
        vault::ui::screens::login::CreateVaultField::EncryptionMethod
    );
    update(&mut state, Message::InputSubmit);
    assert_eq!(state.login_screen.create_vault_form.step, vault::ui::screens::login::CreateVaultStep::Step2);
    update(&mut state, Message::InputSubmit);
    update(&mut state, Message::InputSubmit);
    update(&mut state, Message::InputSubmit);
    assert_eq!(state.login_screen.error_message, Some("Password must be at least 4 characters".to_string()));
}

#[test]
fn test_app_creation() {
    let state = AppState::new(AppConfig::default(), VaultRegistry::default());
    let app = App::new(state);
    assert!(matches!(app.state().screen, Screen::Login));
}

#[test]
fn test_app_update() {
    let state = AppState::new(AppConfig::default(), VaultRegistry::default());
    let mut app = App::new(state);

    let effect = app.update(Message::Navigate(Screen::Settings));
    assert!(matches!(effect, Effect::Nothing));
    assert!(matches!(app.state().screen, Screen::Settings));
}

#[test]
fn app_enters_vault_and_reports_errors() {
    let state = AppState::new(AppConfig::default(), VaultRegistry::default());
    let mut app = App::new(state);
    app.handle_effect_error("boom".to_string());
    assert_eq!(app.state().login_screen.error_message, Some("boom".to_string()));
    app.handle_vault_loaded(
        Vault::new("V"),
        "/v".to_string(),
        [1; 32],
        [2; 32],
        false,
        EncryptionMethod::Aes256Gcm,
        None,
    );
    assert_eq!(app.state().screen, Screen::Main);
    assert_eq!(app.state().mode, AppMode::Unlocked);
    assert!(app.state().login_screen.error_message.is_none());
}

#[test]
fn backspace_after_typing_and_left_after_right_restore_the_input() {
    let mut buf = InputBuffer::new();
    for c in "añb".chars() {
        buf.insert(c);
    }
    buf.home();
    buf.move_right();
    assert_eq!(buf.cursor, 1);
    buf.insert('€');
    assert_eq!(buf.text, "a€ñb");
    assert_eq!(buf.cursor, 4);
    buf.backspace();
    assert_eq!(buf.text, "añb");
    assert_eq!(buf.cursor, 1);
    buf.move_right();
    assert_eq!(buf.cursor, 3);
    buf.move_left();
    assert_eq!(buf.cursor, 1);
}

#[test]
fn copy_sensitive_with_never_timeout_schedules_no_clear() {
    let mut state = test_state();
    state.config.clipboard_timeout_secs = 0;
    let effect = update(&mut state, Message::CopyToClipboard { content: "pw".to_string(), is_sensitive: true });
    match effect {
        Effect::SetClipboard { content, is_sensitive } => {
            assert_eq!(content, "pw");
            assert!(is_sensitive);
        },
        _ => panic!("expected a plain clipboard write"),
    }
    assert!(state.clipboard_state.has_secure_content);
    assert!(state.clipboard_state.clear_at.is_none());
    assert!(!state.clipboard_state.should_clear());
}

#[test]
fn clipboard_clear_time_is_counted_in_milliseconds_of_the_monotonic_clock() {
    let mut clip = ClipboardState::default();
    clip.set_secure_at(1_000, 30);
    assert!(clip.has_secure_content);
    assert_eq!(clip.clear_at, Some(31_000));
    assert!(!clip.should_clear_at(30_999));
    assert!(clip.should_clear_at(31_000));
    clip.set_secure_at(u128::MAX - 10, 1);
    assert_eq!(clip.clear_at, None);
    assert!(!clip.should_clear_at(u128::MAX));
}

#[test]
fn custom_field_form_text_parses_back() {
    let fields = vec![
        CustomField { key: "user".to_string(), value: "alice smith".to_string(), field_type: CustomFieldType::Text },
        CustomField { key: "api:key".to_string(), value: "a=b".to_string(), field_type: CustomFieldType::Secret },
        CustomField { key: "site".to_string(), value: "".to_string(), field_type: CustomFieldType::Url },
    ];
    let text = format_custom_fields_for_form(&fields);
    assert_eq!(text, "text:user=alice smith;secret:api:key=a=b;url:site=");
    let parsed = parse_custom_fields(&text).unwrap();
    assert_eq!(parsed.len(), 3);
    for (p, f) in parsed.iter().zip(fields.iter()) {
        assert_eq!(p.key, f.key);
        assert_eq!(p.value, f.value);
        assert_eq!(p.field_type, f.field_type);
    }
    assert_eq!(format_custom_fields_for_form(&vec![]), "");
    assert!(parse_custom_fields("").unwrap().is_empty());
}
