//! The application: its state and the screens that are not part of it, and
//! how outside work that finished changes them.
use vstd::prelude::*;

use crate::app::effect::{Effect, EffectResult};
use crate::app::message::Message;
use crate::app::state::{AppMode, AppState, NotificationLevel, Screen, VaultState};
use crate::app::update::{message_ok, update};
use crate::crypto::cipher::EncryptionMethod;
use crate::domain::security_question::RecoveryMetadata;
use crate::domain::vault::Vault;
use crate::ui::screens::export::ExportScreen;
use crate::ui::screens::login::LoginScreen;
use crate::ui::screens::main::MainScreen;
use crate::ui::screens::settings::SettingsScreen;

verus! {

/// The application.
pub struct App {
    state: AppState,
    main_screen: MainScreen,
    export_screen: ExportScreen,
}

impl View for App {
    type V = AppState;

    closed spec fn view(&self) -> AppState {
        self.state
    }
}

impl App {
    /// The state is well formed.
    pub closed spec fn wf(&self) -> bool {
        self.state.wf()
    }

    /// The main screen.
    pub closed spec fn main_screen_view(&self) -> MainScreen {
        self.main_screen
    }

    /// The export screen.
    pub closed spec fn export_screen_view(&self) -> ExportScreen {
        self.export_screen
    }

    /// An application on `state`, with empty main and export screens.
    pub fn new(state: AppState) -> (r: App)
        requires
            state.wf(),
        ensures
            r@ == state,
            r.wf(),
            r.main_screen_view().list_state.visible_items@.len() == 0,
            r.main_screen_view().list_state.list_state.selection is None,
            r.export_screen_view().selected == 0,
            r.export_screen_view().path_input@ == Seq::<char>::empty(),
            !r.export_screen_view().path_focused,
            r.export_screen_view().status is None,
    {
        App { state, main_screen: MainScreen::new(), export_screen: ExportScreen::new() }
    }

    /// The state.
    pub fn state(&self) -> (r: &AppState)
        ensures
            *r == self@,
    {
        &self.state
    }

    /// The state, to change; it must be left well formed.
    pub fn state_mut(&mut self) -> (r: &mut AppState)
        ensures
            *r == old(self)@,
            final(self)@ == *final(r),
    {
        &mut self.state
    }

    /// Handles a message.
    pub fn update(&mut self, message: Message) -> (r: Effect)
        requires
            old(self).wf(),
            message_ok(&message),
        ensures
            final(self).wf(),
            crate::app::update::updated(old(self)@, final(self)@, message, r),
            final(self).main_screen_view() == old(self).main_screen_view(),
            final(self).export_screen_view() == old(self).export_screen_view(),
    {
        update(&mut self.state, message)
    }

    /// The login screen, to change.
    pub fn login_screen_mut(&mut self) -> (r: &mut LoginScreen)
        ensures
            *r == old(self)@.login_screen,
            final(self)@ == (AppState { login_screen: *final(r), ..old(self)@ }),
    {
        &mut self.state.login_screen
    }

    /// The main screen, to change.
    pub fn main_screen_mut(&mut self) -> (r: &mut MainScreen)
        ensures
            *r == old(self).main_screen_view(),
            final(self).main_screen_view() == *final(r),
            final(self).export_screen_view() == old(self).export_screen_view(),
            final(self)@ == old(self)@,
    {
        &mut self.main_screen
    }

    /// The settings screen, to change.
    pub fn settings_screen_mut(&mut self) -> (r: &mut SettingsScreen)
        ensures
            *r == old(self)@.settings_state,
            final(self)@ == (AppState { settings_state: *final(r), ..old(self)@ }),
    {
        &mut self.state.settings_state
    }

    /// The export screen, to change.
    pub fn export_screen_mut(&mut self) -> (r: &mut ExportScreen)
        ensures
            *r == old(self).export_screen_view(),
            final(self).export_screen_view() == *final(r),
            final(self).main_screen_view() == old(self).main_screen_view(),
            final(self)@ == old(self)@,
    {
        &mut self.export_screen
    }

    /// Enters a vault that was unlocked: the main screen shows it and the
    /// login inputs are reset.
    pub fn handle_vault_loaded(
        &mut self,
        vault: Vault,
        path: String,
        key: [u8; 32],
        salt: [u8; 32],
        has_keyfile: bool,
        encryption_method: EncryptionMethod,
        recovery_metadata: Option<RecoveryMetadata>,
    )
        requires
            old(self).wf(),
        ensures
            final(self).wf(),
            entered(final(self)@, vault, path, key, salt, has_keyfile, encryption_method, recovery_metadata),
            final(self)@.registry == old(self)@.registry,
            final(self)@.config == old(self)@.config,
    {
        self.enter_vault(vault, path, key, salt, has_keyfile, encryption_method, recovery_metadata);
        self.state.ui_state.notify("Vault unlocked successfully", NotificationLevel::Success);
    }

    /// Enters a vault that was created, as one that was unlocked.
    pub fn handle_vault_created(
        &mut self,
        vault: Vault,
        path: String,
        key: [u8; 32],
        salt: [u8; 32],
        has_keyfile: bool,
        encryption_method: EncryptionMethod,
        recovery_metadata: Option<RecoveryMetadata>,
    )
        requires
            old(self).wf(),
        ensures
            final(self).wf(),
            entered(final(self)@, vault, path, key, salt, has_keyfile, encryption_method, recovery_metadata),
            final(self)@.registry == old(self)@.registry,
            final(self)@.config == old(self)@.config,
    {
        self.enter_vault(vault, path, key, salt, has_keyfile, encryption_method, recovery_metadata);
        self.state.ui_state.notify("Vault created successfully", NotificationLevel::Success);
    }

    fn enter_vault(
        &mut self,
        vault: Vault,
        path: String,
        key: [u8; 32],
        salt: [u8; 32],
        has_keyfile: bool,
        encryption_method: EncryptionMethod,
        recovery_metadata: Option<RecoveryMetadata>,
    )
        requires
            old(self).wf(),
        ensures
            final(self).wf(),
            entered(final(self)@, vault, path, key, salt, has_keyfile, encryption_method, recovery_metadata),
            final(self)@.registry == old(self)@.registry,
            final(self)@.config == old(self)@.config,
    {
        self.state.ui_state.stop_loading();
        let vs = VaultState::new(vault, path, key, salt, has_keyfile, encryption_method, recovery_metadata);
        self.state.vault_state = Some(vs);
        self.state.mode = AppMode::Unlocked;
        self.state.screen = Screen::Main;
        self.state.pending_lock = false;
        self.state.login_screen.entering_password = false;
        self.state.login_screen.entering_keyfile_path = false;
        self.state.login_screen.creating_vault = false;
        self.state.login_screen.pending_unlock_password = None;
        self.state.login_screen.error_message = None;
        self.state.ui_state.input_buffer.clear();
    }

    /// Applies what outside work reported and returns the work that follows
    /// from it: a created vault is added to the registry (which is then
    /// written) and entered, a saved vault is clean (and locks if a lock
    /// waited for the save), loaded configuration and registry replace the
    /// current ones, a key file read is handed to the security workflow, and
    /// errors are shown.
    pub fn handle_effect_result(&mut self, result: EffectResult) -> (r: Effect)
        requires
            old(self).wf(),
        ensures
            final(self).wf(),
            match result {
                EffectResult::Success => r is Nothing && final(self)@ == old(self)@,
                EffectResult::VaultLoaded { vault, path, key, salt, has_keyfile, encryption_method, recovery_metadata } => {
                    &&& r is Nothing
                    &&& entered(final(self)@, vault, path, key, salt, has_keyfile, encryption_method, recovery_metadata)
                },
                EffectResult::VaultCreated {
                    vault,
                    path,
                    vault_name,
                    key,
                    salt,
                    has_keyfile,
                    encryption_method,
                    recovery_metadata,
                    ..
                } => {
                    &&& r is UpdateRegistry
                    &&& entered(final(self)@, vault, path, key, salt, has_keyfile, encryption_method, recovery_metadata)
                    &&& exists|i: int| 0 <= i < final(self)@.registry.entries@.len()
                        && #[trigger] final(self)@.registry.entries@[i].path@ == path@
                        && final(self)@.registry.entries@[i].name@ == vault_name@
                },
                EffectResult::VaultSaved => !old(self)@.pending_lock ==> {
                    &&& r is Nothing
                    &&& match old(self)@.vault_state {
                        Some(vs0) => final(self)@.vault_state matches Some(vs) && !vs.is_dirty && vs.vault == vs0.vault,
                        None => final(self)@.vault_state is None,
                    }
                },
                EffectResult::ExportCompleted { path } => {
                    &&& r is Nothing
                    &&& final(self)@.ui_state.notifications@.last().message@ == "Exported to "@ + path@
                },
                EffectResult::ConfigLoaded(c) => r is Nothing && final(self)@.config == c,
                EffectResult::RegistryLoaded(reg) => r is Nothing && final(self)@.registry == reg,
                EffectResult::KeyfileLoaded { .. } => true,
                EffectResult::Error(e) => {
                    &&& r is Nothing
                    &&& !final(self)@.pending_lock
                    &&& final(self)@.ui_state.notifications@.last().message@ == e@
                    &&& final(self)@.vault_state == old(self)@.vault_state
                },
            },
    {
        match result {
            EffectResult::Success => Effect::none(),
            EffectResult::VaultLoaded { vault, path, key, salt, has_keyfile, encryption_method, recovery_metadata } => {
                self.handle_vault_loaded(vault, path, key, salt, has_keyfile, encryption_method, recovery_metadata);
                Effect::none()
            },
            EffectResult::VaultCreated {
                vault,
                path,
                vault_name,
                key,
                salt,
                has_keyfile,
                encryption_method,
                recovery_metadata,
                keyfile_message,
            } => {
                self.on_vault_created(
                    vault,
                    path,
                    vault_name,
                    key,
                    salt,
                    has_keyfile,
                    encryption_method,
                    recovery_metadata,
                    keyfile_message,
                )
            },
            EffectResult::VaultSaved => self.on_vault_saved(),
            EffectResult::ExportCompleted { path } => {
                let mut m = String::from_str("Exported to ");
                m.append(path.as_str());
                self.state.ui_state.notify(m.as_str(), NotificationLevel::Success);
                Effect::none()
            },
            EffectResult::ConfigLoaded(config) => {
                self.state.config = config;
                Effect::none()
            },
            EffectResult::RegistryLoaded(registry) => {
                self.state.registry = registry;
                Effect::none()
            },
            EffectResult::KeyfileLoaded { path, data } => crate::app::update::keyfile_loaded(&mut self.state, path, data),
            EffectResult::Error(error) => {
                self.handle_effect_error(error);
                Effect::none()
            },
        }
    }

    /// A created vault: it joins the registry (which is then written) and is
    /// entered.
    fn on_vault_created(
        &mut self,
        vault: Vault,
        path: String,
        vault_name: String,
        key: [u8; 32],
        salt: [u8; 32],
        has_keyfile: bool,
        encryption_method: EncryptionMethod,
        recovery_metadata: Option<RecoveryMetadata>,
        keyfile_message: Option<String>,
    ) -> (r: Effect)
        requires
            old(self).wf(),
        ensures
            final(self).wf(),
            r is UpdateRegistry,
            entered(final(self)@, vault, path, key, salt, has_keyfile, encryption_method, recovery_metadata),
            exists|i: int| 0 <= i < final(self)@.registry.entries@.len()
                && #[trigger] final(self)@.registry.entries@[i].path@ == path@
                && final(self)@.registry.entries@[i].name@ == vault_name@,
    {
        self.state.registry.add_or_update(path.as_str(), vault_name.as_str());
        match keyfile_message {
            Some(m) => self.state.ui_state.notify(m.as_str(), NotificationLevel::Info),
            None => {},
        }
        self.handle_vault_created(vault, path, key, salt, has_keyfile, encryption_method, recovery_metadata);
        Effect::UpdateRegistry
    }

    /// A saved vault is clean; a lock that waited for the save happens now.
    fn on_vault_saved(&mut self) -> (r: Effect)
        requires
            old(self).wf(),
        ensures
            final(self).wf(),
            !old(self)@.pending_lock ==> {
                &&& r is Nothing
                &&& match old(self)@.vault_state {
                    Some(vs0) => final(self)@.vault_state matches Some(vs) && !vs.is_dirty && vs.vault == vs0.vault,
                    None => final(self)@.vault_state is None,
                }
            },
    {
        match &mut self.state.vault_state {
            Some(vs) => {
                vs.is_dirty = false;
            },
            None => {},
        }
        if self.state.pending_lock {
            update(&mut self.state, Message::LockVault)
        } else {
            self.state.ui_state.notify("Vault saved successfully!", NotificationLevel::Success);
            Effect::none()
        }
    }

    /// Reports failed outside work: loading stops, a lock waiting for a save
    /// is dropped, and the error shows (on the login screen too).
    pub fn handle_effect_error(&mut self, error: String)
        requires
            old(self).wf(),
        ensures
            final(self).wf(),
            final(self)@.ui_state.loading_message is None,
            !final(self)@.pending_lock,
            old(self)@.screen == Screen::Login ==> final(self)@.login_screen.error_message == Some(error),
            final(self)@.ui_state.notifications@.last().message@ == error@,
            final(self)@.vault_state == old(self)@.vault_state,
    {
        self.state.ui_state.stop_loading();
        self.state.pending_lock = false;
        if self.state.screen == Screen::Login {
            self.state.login_screen.error_message = Some(error.clone());
        }
        self.state.ui_state.notify(error.as_str(), NotificationLevel::Error);
    }
}

/// Whether the state shows the vault just entered: unlocked, on the main
/// screen, with the login inputs reset.
pub open spec fn entered(
    s: AppState,
    vault: Vault,
    path: String,
    key: [u8; 32],
    salt: [u8; 32],
    has_keyfile: bool,
    encryption_method: EncryptionMethod,
    recovery_metadata: Option<RecoveryMetadata>,
) -> bool {
    &&& s.vault_state matches Some(vs) && vs.vault == vault && vs.vault_path == path && vs.encryption_key == key
        && vs.salt == salt && vs.has_keyfile == has_keyfile && vs.encryption_method == encryption_method
        && vs.recovery_metadata == recovery_metadata && !vs.is_dirty && vs.selected_item_id is None
    &&& s.mode == AppMode::Unlocked
    &&& s.screen == Screen::Main
    &&& !s.pending_lock
    &&& !s.login_screen.entering_password
    &&& !s.login_screen.entering_keyfile_path
    &&& !s.login_screen.creating_vault
    &&& s.login_screen.pending_unlock_password is None
    &&& s.login_screen.error_message is None
    &&& s.ui_state.input_buffer.text@.len() == 0
    &&& s.ui_state.loading_message is None
}

} // verus!
