use vault::domain::item::{Item, ItemKind};
use vault::app::state::{AppMode, AppState, FilterState, FloatingWindow, Notification, NotificationLevel, Pane, Screen, VaultState};
use vault::storage::config::AppConfig;
use vault::storage::registry::VaultRegistry;
use vault::ui::widgets::item_detail::{format_datetime, parse_hex_color};
use vault::ui::widgets::notification::{notification_area, MAX_NOTIFICATION_WIDTH, NOTIFICATION_HEIGHT};
use vault::ui::widgets::statusline::get_context_hints;
use vault::input::keybindings::{format_key_combo, KeyCode, KeyCombo, KeyEvent, KeyModifiers, KeyAction, KeybindingConfig};
use vault::input::mouse::{ClickRegion, ClickableElement, LayoutRegions, MouseAction, MouseButton, MouseEvent, MouseEventKind, UiRegion, parse_mouse_event};
use vault::storage::config::ThemeChoice;
use vault::ui::screens::export::{ExportFormat, ExportScreen};
use vault::ui::screens::login::{create_form_scroll, CreateVaultField, CreateVaultFormState, CreateVaultStep, LoginScreen};
use vault::ui::screens::main::MainScreen;
use vault::ui::screens::settings::{get_setting_options, get_setting_value, SettingKind, SettingsScreen};
use vault::ui::theme::catppuccin::{CatppuccinLatte, CatppuccinMocha};
use vault::ui::theme::get_theme;
use vault::ui::theme::palette::{Color, Theme};
use vault::ui::theme::tokyonight::{TokyoNightDay, TokyoNightNight, TokyoNightStorm};
use vault::ui::widgets::button::ButtonStyle;
use vault::ui::widgets::edit_form::{EditFormState, FormField};
use vault::ui::widgets::help::HelpSection;
use vault::ui::widgets::item_list::ItemListState;
use vault::ui::widgets::kind_selector::KindSelectorState;
use vault::ui::widgets::search_dialog::{SearchResultEntry, SearchState};
use vault::app::message::Message;
use vault::input::router::route_key_event;
use vault::domain::vault::Vault;
use vault::input::router::handle_clickable_element;
use vault::input::router::{route_event, Event};

#[test]
fn test_export_format_all() {
    let formats = ExportFormat::all();
    assert_eq!(formats.len(), 3);
}

#[test]
fn test_export_format_encrypted() {
    assert!(!ExportFormat::Json.is_encrypted());
    assert!(ExportFormat::EncryptedJson.is_encrypted());
    assert!(!ExportFormat::Csv.is_encrypted());
}

#[test]
fn test_export_screen_navigation() {
    let mut screen = ExportScreen::new();
    assert_eq!(screen.selected, 0);
    assert!(!screen.path_focused);

    screen.move_down();
    assert_eq!(screen.selected, 1);

    screen.toggle_focus();
    assert!(screen.path_focused);

    screen.input_char('t');
    screen.input_char('e');
    screen.input_char('s');
    screen.input_char('t');
    assert_eq!(screen.path_input, "test");

    screen.delete_char();
    assert_eq!(screen.path_input, "tes");
}

#[test]
fn test_default_path() {
    let screen = ExportScreen::new();
    let path = screen.default_path("My Vault");
    assert_eq!(path, "My_Vault.json");
}

#[test]
fn export_selection_stops_at_ends() {
    let mut screen = ExportScreen::new();
    screen.move_up();
    assert_eq!(screen.selected, 0);
    screen.move_down();
    screen.move_down();
    screen.move_down();
    assert_eq!(screen.selected, 2);
    assert_eq!(screen.selected_format(), ExportFormat::Csv);
    assert_eq!(screen.default_path("a b c"), "a_b_c.csv");
    assert_eq!(ExportFormat::EncryptedJson.extension(), "vault.json");
}

#[test]
fn test_login_screen_navigation() {
    let mut screen = LoginScreen::new();

    screen.select_next(3);
    assert_eq!(screen.selected_vault, 1);

    screen.select_next(3);
    assert_eq!(screen.selected_vault, 2);

    screen.select_next(3);
    assert_eq!(screen.selected_vault, 0);

    screen.select_prev(3);
    assert_eq!(screen.selected_vault, 2);
}

#[test]
fn test_password_mode() {
    let mut screen = LoginScreen::new();

    assert!(!screen.entering_password);

    screen.enter_password_mode();
    assert!(screen.entering_password);

    screen.exit_password_mode();
    assert!(!screen.entering_password);
}

#[test]
fn test_error_handling() {
    let mut screen = LoginScreen::new();

    screen.show_error("Invalid password");
    assert_eq!(screen.error_message, Some("Invalid password".to_string()));

    screen.clear_error();
    assert!(screen.error_message.is_none());
}

#[test]
fn create_vault_field_cycles() {
    let f = CreateVaultField::Password;
    let n = f.next(CreateVaultStep::Step2, 0, true);
    assert_eq!(n, CreateVaultField::ConfirmPassword);
    assert_eq!(n.prev(CreateVaultStep::Step2, 0, true), CreateVaultField::Password);
    assert_eq!(CreateVaultField::UseKeyfile.next(CreateVaultStep::Step2, 0, false), CreateVaultField::Password);
    assert_eq!(CreateVaultField::Password.prev(CreateVaultStep::Step2, 0, true), CreateVaultField::KeyfilePath);
    assert_eq!(
        CreateVaultField::RecoveryQuestionsCount.prev(CreateVaultStep::Step3, 2, false),
        CreateVaultField::RecoveryAnswer2
    );
    assert_eq!(
        CreateVaultField::RecoveryAnswer2.next(CreateVaultStep::Step3, 2, false),
        CreateVaultField::RecoveryQuestionsCount
    );
}

#[test]
fn test_main_screen_creation() {
    let screen = MainScreen::new();
    assert!(screen.list_state.visible_items.is_empty());
}

#[test]
fn test_settings_screen_navigation() {
    let mut screen = SettingsScreen::new();
    assert_eq!(screen.selected, 0);

    screen.move_down(SettingKind::all().len(), 0);
    assert_eq!(screen.selected, 1);

    screen.move_up();
    assert_eq!(screen.selected, 0);
}

#[test]
fn test_settings_screen_edit_mode() {
    let mut screen = SettingsScreen::new();
    assert!(!screen.editing);

    screen.start_edit(2);
    assert!(screen.editing);
    assert_eq!(screen.sub_selection, 2);

    screen.move_down(SettingKind::all().len(), 5);
    assert_eq!(screen.sub_selection, 3);

    let result = screen.confirm_edit();
    assert!(!screen.editing);
    assert_eq!(result, 3);
}

#[test]
fn test_setting_kind_labels() {
    assert_eq!(SettingKind::Theme.label(), "Theme");
    assert_eq!(SettingKind::AutoLock.label(), "Auto-Lock");
}

#[test]
fn test_catppuccin_themes() {
    assert!(CatppuccinLatte.is_light());
    assert!(!CatppuccinMocha.is_light());

    assert_eq!(CatppuccinMocha.name(), "Catppuccin Mocha");

    let palette = CatppuccinMocha.palette();
    assert!(matches!(palette.bg, Color::Rgb(30, 30, 46)));
}

#[test]
fn test_tokyonight_themes() {
    assert!(!TokyoNightNight.is_light());
    assert!(!TokyoNightStorm.is_light());
    assert!(TokyoNightDay.is_light());

    assert_eq!(TokyoNightNight.name(), "Tokyo Night");

    let palette = TokyoNightNight.palette();
    assert!(matches!(palette.primary, Color::Rgb(122, 162, 247)));
    assert_eq!(get_theme(ThemeChoice::TokyoNightNight), palette);
}

#[test]
fn test_button_styles() {
    assert_eq!(ButtonStyle::Primary, ButtonStyle::Primary);
    assert_ne!(ButtonStyle::Primary, ButtonStyle::Danger);
}

#[test]
fn test_form_fields_password() {
    let form = EditFormState::new(ItemKind::Password, true);
    assert!(form.fields.contains(&FormField::Title));
    assert!(form.fields.contains(&FormField::Username));
    assert!(form.fields.contains(&FormField::Password));
    assert!(form.fields.contains(&FormField::Notes));
}

#[test]
fn test_form_fields_crypto() {
    let form = EditFormState::new(ItemKind::CryptoSeed, true);
    assert!(form.fields.contains(&FormField::SeedPhrase));
    assert!(form.fields.contains(&FormField::DerivationPath));
}

#[test]
fn test_form_fields_custom() {
    let form = EditFormState::new(ItemKind::Custom, true);
    assert!(form.fields.contains(&FormField::Title));
    assert!(form.fields.contains(&FormField::CustomFields));
    assert!(form.fields.contains(&FormField::Notes));
}

#[test]
fn test_form_navigation() {
    let mut form = EditFormState::new(ItemKind::Password, true);
    assert_eq!(form.focused_field, 0);

    form.next_field();
    assert_eq!(form.focused_field, 1);

    form.prev_field();
    assert_eq!(form.focused_field, 0);

    form.prev_field();
    assert_eq!(form.focused_field, 0);
}

#[test]
fn test_form_input() {
    let mut form = EditFormState::new(ItemKind::Generic, true);

    form.insert('H');
    form.insert('e');
    form.insert('l');
    form.insert('l');
    form.insert('o');

    assert_eq!(form.current_value(), "Hello");

    form.backspace();
    assert_eq!(form.current_value(), "Hell");
}

#[test]
fn test_form_validation() {
    let form = EditFormState::new(ItemKind::Generic, true);
    assert!(form.validate().is_err());

    let mut form = EditFormState::new(ItemKind::Generic, true);
    form.set_title("Test Item");
    assert!(form.validate().is_ok());
}

#[test]
fn form_labels_and_values() {
    assert_eq!(FormField::CustomFields.label(), "Fields (type:key=value; ...)");
    assert!(FormField::TotpSecret.is_sensitive());
    assert!(!FormField::Url.is_sensitive());
    let mut form = EditFormState::new(ItemKind::ApiKey, false);
    form.set_title("  ");
    assert_eq!(form.validate(), Err("Title is required"));
    assert_eq!(form.get_value(&FormField::Service), Some(""));
    assert_eq!(form.get_value(&FormField::Password), None);
    assert_eq!(form.fields.len(), 4);
}

#[test]
fn test_help_section_structure() {
    let section = HelpSection { title: "Test", bindings: vec![("a", "Action A"), ("b", "Action B")] };
    assert_eq!(section.title, "Test");
    assert_eq!(section.bindings.len(), 2);
}

#[test]
fn test_item_list_navigation() {
    let mut state = ItemListState::new();
    let items = vec![Item::password("Item 1", "pass1"), Item::password("Item 2", "pass2"), Item::password("Item 3", "pass3")];

    state.update_visible(&items, &FilterState::default(), "");
    assert_eq!(state.visible_items.len(), 3);

    state.select_first();
    assert_eq!(state.list_state.selected(), Some(0));

    state.select_next();
    assert_eq!(state.list_state.selected(), Some(1));

    state.select_last();
    assert_eq!(state.list_state.selected(), Some(2));

    state.select_prev();
    assert_eq!(state.list_state.selected(), Some(1));
}

#[test]
fn test_item_list_filtering() {
    let mut state = ItemListState::new();
    let items = vec![Item::password("GitHub", "pass1"), Item::password("GitLab", "pass2"), Item::crypto_seed("Bitcoin", "seed words")];

    state.update_visible(&items, &FilterState::default(), "");
    assert_eq!(state.visible_items.len(), 3);

    state.update_visible(&items, &FilterState::default(), "git");
    assert_eq!(state.visible_items.len(), 2);

    let mut filter = FilterState::default();
    filter.kind = Some(ItemKind::CryptoSeed);
    state.update_visible(&items, &filter, "");
    assert_eq!(state.visible_items.len(), 1);
}

#[test]
fn item_list_selection_by_id() {
    let items = vec![Item::password("A", "1").with_notes("Travel"), Item::password("B", "2")];
    let mut state = ItemListState::new();
    state.update_visible(&items, &FilterState::default(), "TRAV");
    assert_eq!(state.visible_items, vec![items[0].id]);
    state.update_visible(&items, &FilterState::default(), "");
    state.select(items[1].id);
    assert_eq!(state.selected(), Some(items[1].id));
    state.select(12345);
    assert_eq!(state.selected(), Some(items[1].id));
}

#[test]
fn test_selector_navigation() {
    let mut state = KindSelectorState::default();
    assert_eq!(state.selected, 0);

    state.next();
    assert_eq!(state.selected, 1);

    state.next();
    state.next();
    state.next();
    state.next();
    assert_eq!(state.selected, 5);

    state.next();
    assert_eq!(state.selected, 5);

    state.prev();
    assert_eq!(state.selected, 4);
}

#[test]
fn test_selected_kind() {
    let state = KindSelectorState::default();
    assert_eq!(state.selected_kind(), ItemKind::Password);
}

#[test]
fn test_search_state_input() {
    let mut state = SearchState::new();

    state.insert('t');
    state.insert('e');
    state.insert('s');
    state.insert('t');

    assert_eq!(state.query, "test");
    assert_eq!(state.cursor, 4);

    state.backspace();
    assert_eq!(state.query, "tes");
}

#[test]
fn test_search_state_navigation() {
    let mut state = SearchState::new();
    state.results = vec![
        SearchResultEntry { item_id: 1, title: "Item 1".to_string(), kind_icon: "", score: 100 },
        SearchResultEntry { item_id: 2, title: "Item 2".to_string(), kind_icon: "", score: 90 },
    ];

    assert_eq!(state.selected, 0);
    state.next_result();
    assert_eq!(state.selected, 1);
    state.next_result();
    assert_eq!(state.selected, 1);
    state.prev_result();
    assert_eq!(state.selected, 0);
}

#[test]
fn test_update_results() {
    let mut state = SearchState::new();
    let items = vec![
        Item::password("Bitcoin Wallet", "secret"),
        Item::password("Ethereum Keys", "secret"),
        Item::password("Bank Account", "secret"),
    ];

    state.query = "bit".to_string();
    state.cursor = 3;
    state.update_results(&items);

    assert!(!state.results.is_empty());
    assert!(state.results[0].title.to_lowercase().contains("bit"));
}

#[test]
fn search_ranks_prefix_then_substring_then_scattered() {
    let items = vec![Item::password("Xbtc", "s"), Item::password("abtcx", "s"), Item::password("Btc", "s"), Item::password("bxtxc", "s")];
    let mut state = SearchState::new();
    state.query = "BTC".to_string();
    state.update_results(&items);
    let titles: Vec<&str> = state.results.iter().map(|r| r.title.as_str()).collect();
    assert_eq!(titles, vec!["Btc", "Xbtc", "abtcx", "bxtxc"]);
    assert_eq!(state.results[0].score, 300);
    assert_eq!(state.results[3].score, 100);
    state.clear();
    assert!(state.results.is_empty());
}

#[test]
fn test_click_region() {
    let region = ClickRegion::new(10, 10, 20, 10);

    assert!(region.contains(10, 10));
    assert!(region.contains(15, 15));
    assert!(region.contains(29, 19));
    assert!(!region.contains(30, 10));
    assert!(!region.contains(10, 20));
    assert!(!region.contains(5, 10));
}

#[test]
fn test_layout_regions() {
    let mut layout = LayoutRegions::new();

    layout.set(UiRegion::List, ClickRegion::new(0, 0, 30, 20));
    layout.set(UiRegion::Detail, ClickRegion::new(30, 0, 50, 20));
    layout.set(UiRegion::StatusBar, ClickRegion::new(0, 20, 80, 1));

    assert_eq!(layout.find_region(10, 10), Some(UiRegion::List));
    assert_eq!(layout.find_region(40, 10), Some(UiRegion::Detail));
    assert_eq!(layout.find_region(40, 20), Some(UiRegion::StatusBar));
}

#[test]
fn test_floating_priority() {
    let mut layout = LayoutRegions::new();

    layout.set(UiRegion::List, ClickRegion::new(0, 0, 80, 24));
    layout.set(UiRegion::FloatingWindow, ClickRegion::new(20, 5, 40, 10));

    assert_eq!(layout.find_region(30, 10), Some(UiRegion::FloatingWindow));
    assert_eq!(layout.find_region(5, 5), Some(UiRegion::List));
}

#[test]
fn test_clickable_elements() {
    let mut layout = LayoutRegions::new();

    layout.register_clickable(ClickRegion::new(0, 0, 30, 1), ClickableElement::VaultEntry(0));
    layout.register_clickable(ClickRegion::new(0, 1, 30, 1), ClickableElement::VaultEntry(1));

    assert_eq!(layout.find_clickable(10, 0), Some(&ClickableElement::VaultEntry(0)));
    assert_eq!(layout.find_clickable(10, 1), Some(&ClickableElement::VaultEntry(1)));
    assert_eq!(layout.find_clickable(10, 5), None);
}

#[test]
fn test_double_click_detection() {
    let mut layout = LayoutRegions::new();

    assert!(!layout.register_click(10, 10));
    assert!(layout.register_click(10, 10));
    assert!(!layout.register_click(10, 10));
}

#[test]
fn mouse_events_become_actions() {
    let e = MouseEvent { kind: MouseEventKind::Down(MouseButton::Left), column: 3, row: 4 };
    assert_eq!(parse_mouse_event(e), Some(MouseAction::Click { x: 3, y: 4, button: MouseButton::Left }));
    let moved = MouseEvent { kind: MouseEventKind::Moved, column: 3, row: 4 };
    assert_eq!(parse_mouse_event(moved), None);
    let a = MouseAction::ScrollUp { x: 1, y: 2 };
    assert_eq!(a.position(), (1, 2));
    assert!(a.is_in_region(&ClickRegion::new(0, 0, 2, 3)));
    let mut layout = LayoutRegions::new();
    layout.set(UiRegion::List, ClickRegion::new(0, 0, 5, 5));
    layout.set(UiRegion::List, ClickRegion::new(10, 10, 5, 5));
    assert_eq!(layout.regions.len(), 1);
    assert_eq!(layout.find_region(1, 1), None);
    assert!(!ClickRegion::new(65535, 0, 10, 1).contains(65535, 1));
}

#[test]
fn test_default_bindings() {
    let config = KeybindingConfig::default();

    let event = KeyEvent::new(KeyCode::Char('j'), KeyModifiers::none());
    assert_eq!(config.get_action(event), Some(KeyAction::MoveDown));

    let event = KeyEvent::new(KeyCode::Char('k'), KeyModifiers::none());
    assert_eq!(config.get_action(event), Some(KeyAction::MoveUp));
}

#[test]
fn test_ctrl_bindings() {
    let config = KeybindingConfig::default();

    let event = KeyEvent::new(KeyCode::Char('s'), KeyModifiers::control());
    assert_eq!(config.get_action(event), Some(KeyAction::Save));
}

#[test]
fn test_format_key_combo() {
    let combo = KeyCombo::ctrl(KeyCode::Char('s'));
    assert_eq!(format_key_combo(&combo), "Ctrl+s");

    let combo = KeyCombo::plain(KeyCode::Enter);
    assert_eq!(format_key_combo(&combo), "Enter");
}

#[test]
fn keybindings_can_be_changed() {
    let mut config = KeybindingConfig::default();
    let combo = KeyCombo::plain(KeyCode::Char('j'));
    config.set(combo, KeyAction::Search);
    assert_eq!(config.get_action(KeyEvent::new(KeyCode::Char('j'), KeyModifiers::none())), Some(KeyAction::Search));
    config.remove(&combo);
    assert_eq!(config.get_action(KeyEvent::new(KeyCode::Char('j'), KeyModifiers::none())), None);
    let quits = config.get_bindings(KeyAction::ForceQuit);
    assert_eq!(quits.len(), 2);
    assert_eq!(format_key_combo(&KeyCombo::shift(KeyCode::F(5))), "Shift+F5");
    assert_eq!(format_key_combo(&KeyCombo::plain(KeyCode::Up)), "↑");
}

fn router_state() -> vault::app::state::AppState {
    vault::app::state::AppState::new(vault::storage::config::AppConfig::default(), vault::storage::registry::VaultRegistry::default())
}

#[test]
fn test_login_routing() {
    let mut state = router_state();

    let event = KeyEvent::new(KeyCode::Char('a'), KeyModifiers::none());
    let msg = route_key_event(&state, event, &KeybindingConfig::default());
    assert!(matches!(msg, Message::Noop));

    let event = KeyEvent::new(KeyCode::Char('n'), KeyModifiers::none());
    let msg = route_key_event(&state, event, &KeybindingConfig::default());
    assert!(matches!(msg, Message::StartCreateVault));

    state.login_screen.entering_password = true;
    let event = KeyEvent::new(KeyCode::Char('a'), KeyModifiers::none());
    let msg = route_key_event(&state, event, &KeybindingConfig::default());
    assert!(matches!(msg, Message::InputChar('a')));

    let event = KeyEvent::new(KeyCode::Char('b'), KeyModifiers::none());
    let msg = route_key_event(&state, event, &KeybindingConfig::default());
    assert!(matches!(msg, Message::InputChar('b')));

    let event = KeyEvent::new(KeyCode::Enter, KeyModifiers::none());
    let msg = route_key_event(&state, event, &KeybindingConfig::default());
    assert!(matches!(msg, Message::InputSubmit));

    let event = KeyEvent::new(KeyCode::Esc, KeyModifiers::none());
    let msg = route_key_event(&state, event, &KeybindingConfig::default());
    assert!(matches!(msg, Message::CancelInput));
}

#[test]
fn test_force_quit() {
    let state = router_state();

    let event = KeyEvent::new(KeyCode::Char('c'), KeyModifiers::control());
    let msg = route_key_event(&state, event, &KeybindingConfig::default());
    assert!(matches!(msg, Message::ForceQuit));

    let event = KeyEvent::new(KeyCode::Char('q'), KeyModifiers::control());
    let msg = route_key_event(&state, event, &KeybindingConfig::default());
    assert!(matches!(msg, Message::ForceQuit));
}

#[test]
fn test_keyfile_path_mode_accepts_text_input() {
    let mut state = router_state();
    state.login_screen.entering_keyfile_path = true;

    let event = KeyEvent::new(KeyCode::Char('b'), KeyModifiers::none());
    let msg = route_key_event(&state, event, &KeybindingConfig::default());
    assert!(matches!(msg, Message::InputChar('b')));

    let event = KeyEvent::new(KeyCode::Esc, KeyModifiers::none());
    let msg = route_key_event(&state, event, &KeybindingConfig::default());
    assert!(matches!(msg, Message::CancelInput));
}

#[test]
fn test_delete_button_and_confirm_button_mapping() {
    let mut state = router_state();
    let mut vault = Vault::new("Test");
    let item = Item::password("GitHub", "secret123");
    let item_id = item.id;
    vault.add_item(item);

    state.vault_state = Some(VaultState::new(
        vault,
        "/tmp/test.vault".to_string(),
        [0u8; 32],
        [0u8; 32],
        false,
        vault::crypto::cipher::EncryptionMethod::Aes256Gcm,
        None,
    ));
    state.vault_state.as_mut().unwrap().selected_item_id = Some(item_id);
    state.mode = AppMode::Unlocked;
    state.screen = Screen::Main;

    let msg = handle_clickable_element(&state, &ClickableElement::Button("delete".to_string()), 0, 0, false);
    assert!(matches!(msg, Message::DeleteItem(id) if id == item_id));

    state.ui_state.floating_window = Some(FloatingWindow::ConfirmDelete { item_id });
    let msg = handle_clickable_element(&state, &ClickableElement::Button("confirm-delete".to_string()), 0, 0, false);
    assert!(matches!(msg, Message::ConfirmDeleteItem(id) if id == item_id));
}

#[test]
fn main_screen_keys_follow_bindings() {
    let mut state = router_state();
    state.screen = Screen::Main;
    let bindings = KeybindingConfig::default();
    let msg = route_event(&mut state, Event::Key(KeyEvent::new(KeyCode::Char('j'), KeyModifiers::none())), &bindings);
    assert!(matches!(msg, Message::SelectNextItem));
    let msg = route_event(&mut state, Event::Key(KeyEvent::new(KeyCode::Tab, KeyModifiers::none())), &bindings);
    assert!(matches!(msg, Message::FocusPane(Pane::Detail)));
    let msg = route_event(&mut state, Event::Resize(10, 10), &bindings);
    assert!(matches!(msg, Message::Noop));
    state.config.mouse_enabled = false;
    let click = MouseEvent { kind: MouseEventKind::Down(MouseButton::Left), column: 0, row: 0 };
    assert!(matches!(route_event(&mut state, Event::Mouse(click), &bindings), Message::Noop));
}

#[test]
fn test_format_datetime() {
    let dt = chrono::Utc::now();
    let formatted = format_datetime(dt.timestamp_millis()).unwrap();
    assert!(formatted.contains("-"));
    assert!(formatted.contains(":"));
}

#[test]
fn format_datetime_shows_minutes_in_utc() {
    assert_eq!(format_datetime(0).unwrap(), "1970-01-01 00:00");
    assert_eq!(format_datetime(951_782_400_000 + 90_000).unwrap(), "2000-02-29 00:01");
    assert!(format_datetime(i64::MAX).is_none());
}

#[test]
fn test_parse_hex_color() {
    let color = parse_hex_color("#ff5500").unwrap();
    assert!(matches!(color, Color::Rgb(255, 85, 0)));
    let color = parse_hex_color("00ff00").unwrap();
    assert!(matches!(color, Color::Rgb(0, 255, 0)));
    assert!(parse_hex_color("invalid").is_none());
}

#[test]
fn parse_hex_color_edge_cases() {
    assert_eq!(parse_hex_color("##AbCdEf"), Some(Color::Rgb(0xab, 0xcd, 0xef)));
    assert_eq!(parse_hex_color("+f+f+f"), Some(Color::Rgb(15, 15, 15)));
    assert_eq!(parse_hex_color("#ff550"), None);
    assert_eq!(parse_hex_color("#ff55000"), None);
    assert_eq!(parse_hex_color("#gg5500"), None);
    assert_eq!(parse_hex_color("-f0000"), None);
    assert_eq!(parse_hex_color("ab\u{e9}cd"), None);
    assert_eq!(parse_hex_color(""), None);
}

fn create_notification(level: NotificationLevel, message: &str) -> Notification {
    Notification {
        id: uuid::Uuid::new_v4().as_u128(),
        message: message.to_string(),
        level,
        expires_at: chrono::Utc::now().timestamp_millis(),
    }
}

#[test]
fn test_notification_area_calculation() {
    let frame_area = ClickRegion { x: 0, y: 0, width: 100, height: 50 };

    let area = notification_area(frame_area, 1);
    assert_eq!(area.height, NOTIFICATION_HEIGHT);
    assert!(area.width <= MAX_NOTIFICATION_WIDTH);

    let area = notification_area(frame_area, 5);
    assert_eq!(area.height, 3 * NOTIFICATION_HEIGHT);
}

#[test]
fn notification_area_in_a_small_frame() {
    let frame_area = ClickRegion { x: 2, y: 3, width: 30, height: 4 };
    let area = notification_area(frame_area, 2);
    assert_eq!(area, ClickRegion { x: 2, y: 4, width: 30, height: 4 });

    let wide = ClickRegion { x: 5, y: 0, width: 120, height: 40 };
    assert_eq!(notification_area(wide, 0), ClickRegion { x: 74, y: 1, width: 50, height: 0 });
}

#[test]
fn test_notification_levels() {
    let info = create_notification(NotificationLevel::Info, "Info message");
    let success = create_notification(NotificationLevel::Success, "Success!");
    let warning = create_notification(NotificationLevel::Warning, "Warning...");
    let error = create_notification(NotificationLevel::Error, "Error occurred");

    assert!(matches!(info.level, NotificationLevel::Info));
    assert!(matches!(success.level, NotificationLevel::Success));
    assert!(matches!(warning.level, NotificationLevel::Warning));
    assert!(matches!(error.level, NotificationLevel::Error));
}

#[test]
fn test_message_truncation() {
    let long_message = "A".repeat(100);
    let notification = create_notification(NotificationLevel::Info, &long_message);

    assert_eq!(notification.message.len(), 100);
}

#[test]
fn test_context_hints() {
    let config = AppConfig::default();
    let registry = VaultRegistry::new();
    let state = AppState::new(config, registry);

    let hints = get_context_hints(&state);
    assert!(hints.contains("unlock"));
}

#[test]
fn context_hints_follow_the_focused_pane() {
    let mut state = AppState::new(AppConfig::default(), VaultRegistry::new());
    state.mode = AppMode::Unlocked;
    state.ui_state.focused_pane = Pane::Detail;
    assert_eq!(get_context_hints(&state), "j/k:scroll r:reveal e:edit");
    state.ui_state.floating_window = Some(FloatingWindow::new_search());
    assert_eq!(get_context_hints(&state), "Esc:close");
    state.mode = AppMode::Exporting;
    assert_eq!(get_context_hints(&state), "Enter:export Esc:cancel");
}

#[test]
fn setting_values_and_options_as_shown() {
    let mut state = AppState::new(AppConfig::default(), VaultRegistry::new());
    state.config.auto_lock_timeout_secs = 300;
    state.config.clipboard_timeout_secs = 0;
    state.config.show_icons = false;
    assert_eq!(get_setting_value(&state, &SettingKind::AutoLockTimeout), "300s");
    assert_eq!(get_setting_value(&state, &SettingKind::ClipboardTimeout), "0s");
    assert_eq!(get_setting_value(&state, &SettingKind::ShowIcons), "No");
    assert_eq!(get_setting_value(&state, &SettingKind::Theme), "Catppuccin Mocha");
    assert_eq!(get_setting_value(&state, &SettingKind::ChangeMasterPassword), "Action");

    assert_eq!(get_setting_options(&state, &SettingKind::ClipboardTimeout), vec!["10s", "30s", "60s", "120s", "Never"]);
    assert_eq!(get_setting_options(&state, &SettingKind::MouseEnabled), vec!["Enabled", "Disabled"]);
    assert_eq!(get_setting_options(&state, &SettingKind::Theme).len(), ThemeChoice::all().len());
    assert_eq!(get_setting_options(&state, &SettingKind::IconColor)[0], "Theme Default");
    assert!(get_setting_options(&state, &SettingKind::ManageRecovery).is_empty());
}

#[test]
fn create_form_scrolls_to_keep_the_focused_field_in_view() {
    let mut form = CreateVaultFormState::new();
    form.step = CreateVaultStep::Step3;
    form.recovery_questions_count = 3;
    // Seven fields of three rows need 25 rows with the frame; 50 rows hold them all.
    form.focused_field = CreateVaultField::RecoveryAnswer3;
    assert_eq!(create_form_scroll(&form, 50), 0);
    // In 14 rows there is room for 10 rows of fields: three fields show, so
    // the last one shows at the bottom from the fifth on.
    assert_eq!(create_form_scroll(&form, 14), 4);
    form.scroll_offset = 4;
    form.focused_field = CreateVaultField::RecoveryQuestion1;
    assert_eq!(create_form_scroll(&form, 14), 1);
}
