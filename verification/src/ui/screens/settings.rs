//! The settings screen: the list of settings, choosing a value for one, and
//! the state of the password-change and recovery-setup workflows.
use vstd::prelude::*;

use crate::app::state::AppState;
use crate::crypto::secure_string::{decimal, decimal_string};
use crate::storage::config::{
    AppConfig, IconColorChoice, ThemeChoice, all_icon_colors, all_themes, icon_color_name, theme_name,
};
use crate::storage::vault_file::string_views;

verus! {

/// Step of the password-change workflow.
#[derive(Debug, Clone, Copy, PartialEq, Eq, Structural)]
pub enum ChangePasswordStep {
    CurrentPassword,
    KeyfilePath,
    NewPassword,
    ConfirmPassword,
}

/// State of the password-change workflow.
#[derive(Debug, Clone)]
pub struct ChangePasswordAction {
    pub step: ChangePasswordStep,
    pub current_password: Option<String>,
    pub keyfile_path: String,
    pub keyfile_data: Option<Vec<u8>>,
    pub new_password: Option<String>,
}

impl Default for ChangePasswordAction {
    fn default() -> (r: ChangePasswordAction)
        ensures
            r.step == ChangePasswordStep::CurrentPassword,
            r.current_password is None,
            r.keyfile_path@ == Seq::<char>::empty(),
            r.keyfile_data is None,
            r.new_password is None,
    {
        ChangePasswordAction {
            step: ChangePasswordStep::CurrentPassword,
            current_password: None,
            keyfile_path: String::new(),
            keyfile_data: None,
            new_password: None,
        }
    }
}

/// Step of the recovery-setup workflow.
#[derive(Debug, Clone, Copy, PartialEq, Eq, Structural)]
pub enum RecoverySetupStep {
    CurrentPassword,
    KeyfilePath,
    QuestionCount,
    QuestionText,
    AnswerText,
}

/// A recovery question typed in the settings workflow.
#[derive(Debug, Clone)]
pub struct RecoveryQuestionDraft {
    pub question: String,
    pub answer: String,
}

impl Default for RecoveryQuestionDraft {
    fn default() -> (r: RecoveryQuestionDraft)
        ensures
            r.question@ == Seq::<char>::empty(),
            r.answer@ == Seq::<char>::empty(),
    {
        RecoveryQuestionDraft { question: String::new(), answer: String::new() }
    }
}

/// State of the recovery-setup workflow.
#[derive(Debug, Clone)]
pub struct RecoverySetupAction {
    pub step: RecoverySetupStep,
    pub current_password: Option<String>,
    pub keyfile_path: String,
    pub keyfile_data: Option<Vec<u8>>,
    pub question_count: u8,
    pub questions: Vec<RecoveryQuestionDraft>,
    pub pending_question: Option<String>,
}

impl Default for RecoverySetupAction {
    fn default() -> (r: RecoverySetupAction)
        ensures
            r.step == RecoverySetupStep::CurrentPassword,
            r.current_password is None,
            r.keyfile_path@ == Seq::<char>::empty(),
            r.keyfile_data is None,
            r.question_count == 0,
            r.questions@ == Seq::<RecoveryQuestionDraft>::empty(),
            r.pending_question is None,
    {
        RecoverySetupAction {
            step: RecoverySetupStep::CurrentPassword,
            current_password: None,
            keyfile_path: String::new(),
            keyfile_data: None,
            question_count: 0,
            questions: Vec::new(),
            pending_question: None,
        }
    }
}

/// Step of the workflow that adds, changes or removes the key file.
#[derive(Debug, Clone, Copy, PartialEq, Eq, Structural)]
pub enum AddKeyfileStep {
    CurrentPassword,
    OldKeyfilePath,
    NewKeyfilePath,
}

/// State of the key-file workflow.
#[derive(Debug, Clone)]
pub struct AddKeyfileAction {
    pub step: AddKeyfileStep,
    pub current_password: Option<String>,
    pub old_keyfile_path: String,
    pub old_keyfile_data: Option<Vec<u8>>,
    pub new_keyfile_path: String,
}

impl Default for AddKeyfileAction {
    fn default() -> (r: AddKeyfileAction)
        ensures
            r.step == AddKeyfileStep::CurrentPassword,
            r.current_password is None,
            r.old_keyfile_path@ == Seq::<char>::empty(),
            r.old_keyfile_data is None,
            r.new_keyfile_path@ == Seq::<char>::empty(),
    {
        AddKeyfileAction {
            step: AddKeyfileStep::CurrentPassword,
            current_password: None,
            old_keyfile_path: String::new(),
            old_keyfile_data: None,
            new_keyfile_path: String::new(),
        }
    }
}

/// Step of the workflow that manages the recovery questions.
#[derive(Debug, Clone, Copy, PartialEq, Eq, Structural)]
pub enum ManageRecoveryStep {
    VerifyPassword,
    VerifyKeyfile,
    QuestionList,
    EditQuestionText,
    AddQuestionText,
    AddAnswerText,
    CollectExistingAnswer,
    ConfirmDisableRecovery,
}

/// What the recovery-management workflow is changing.
#[derive(Debug, Clone, Copy, PartialEq, Eq, Structural)]
pub enum ManageRecoveryTarget {
    /// Nothing chosen yet.
    Unchosen,
    /// The text of the question at an index.
    EditQuestionText(usize),
    /// The answer of the question at an index.
    EditAnswer(usize),
    /// The question at an index goes.
    DeleteQuestion(usize),
    /// A question is added.
    AddQuestion,
}

/// State of the recovery-management workflow.
#[derive(Debug, Clone)]
pub struct ManageRecoveryAction {
    pub step: ManageRecoveryStep,
    pub target: ManageRecoveryTarget,
    pub current_password: Option<String>,
    pub keyfile_path: String,
    pub keyfile_data: Option<Vec<u8>>,
    /// The question selected in the list.
    pub selected_idx: usize,
    /// The answers typed so far, for rebuilding the recovery setup.
    pub collected_answers: Vec<Option<String>>,
    /// How many answers were typed so far.
    pub collect_idx: usize,
    pub new_question_text: Option<String>,
    pub new_answer_text: Option<String>,
}

impl Default for ManageRecoveryAction {
    fn default() -> (r: ManageRecoveryAction)
        ensures
            r.step == ManageRecoveryStep::VerifyPassword,
            r.target == ManageRecoveryTarget::Unchosen,
            r.current_password is None,
            r.keyfile_path@ == Seq::<char>::empty(),
            r.keyfile_data is None,
            r.selected_idx == 0,
            r.collected_answers@ == Seq::<Option<String>>::empty(),
            r.collect_idx == 0,
            r.new_question_text is None,
            r.new_answer_text is None,
    {
        ManageRecoveryAction {
            step: ManageRecoveryStep::VerifyPassword,
            target: ManageRecoveryTarget::Unchosen,
            current_password: None,
            keyfile_path: String::new(),
            keyfile_data: None,
            selected_idx: 0,
            collected_answers: Vec::new(),
            collect_idx: 0,
            new_question_text: None,
            new_answer_text: None,
        }
    }
}

/// The security workflow under way in the settings.
#[derive(Debug, Clone)]
pub enum SecurityActionState {
    ChangePassword(ChangePasswordAction),
    AddKeyfile(AddKeyfileAction),
    ManageRecovery(ManageRecoveryAction),
    ConfigureRecovery(RecoverySetupAction),
}

/// State of the settings screen.
#[derive(Debug)]
pub struct SettingsScreen {
    /// Index of the selected setting.
    pub selected: usize,
    /// Whether a value is being chosen for the selected setting.
    pub editing: bool,
    /// Index of the value being chosen.
    pub sub_selection: usize,
    /// The security workflow under way, if any.
    pub security_action: Option<SecurityActionState>,
}

impl Default for SettingsScreen {
    fn default() -> (r: SettingsScreen)
        ensures
            r.selected == 0,
            !r.editing,
            r.sub_selection == 0,
            r.security_action is None,
    {
        SettingsScreen { selected: 0, editing: false, sub_selection: 0, security_action: None }
    }
}

impl SettingsScreen {
    /// The first setting selected, nothing under way.
    pub fn new() -> (r: SettingsScreen)
        ensures
            r.selected == 0,
            !r.editing,
            r.sub_selection == 0,
            r.security_action is None,
    {
        SettingsScreen::default()
    }

    /// Moves up the value list while editing, else up the settings; stops
    /// at the top.
    pub fn move_up(&mut self)
        ensures
            final(self).editing == old(self).editing,
            final(self).security_action == old(self).security_action,
            old(self).editing ==> final(self).selected == old(self).selected
                && final(self).sub_selection == (if old(self).sub_selection > 0 { old(self).sub_selection - 1 } else { 0 }),
            !old(self).editing ==> final(self).sub_selection == old(self).sub_selection
                && final(self).selected == (if old(self).selected > 0 { old(self).selected - 1 } else { 0 }),
    {
        if self.editing {
            self.sub_selection = if self.sub_selection > 0 { self.sub_selection - 1 } else { 0 };
        } else {
            self.selected = if self.selected > 0 { self.selected - 1 } else { 0 };
        }
    }

    /// Moves down the value list (of `max_sub_items`) while editing, else
    /// down the settings (of `max_items`); stops at the bottom.
    pub fn move_down(&mut self, max_items: usize, max_sub_items: usize)
        ensures
            final(self).editing == old(self).editing,
            final(self).security_action == old(self).security_action,
            old(self).editing ==> final(self).selected == old(self).selected
                && final(self).sub_selection == (if old(self).sub_selection + 1 < max_sub_items {
                    old(self).sub_selection + 1
                } else {
                    old(self).sub_selection as int
                }),
            !old(self).editing ==> final(self).sub_selection == old(self).sub_selection
                && final(self).selected == (if old(self).selected + 1 < max_items {
                    old(self).selected + 1
                } else {
                    old(self).selected as int
                }),
    {
        if self.editing {
            if max_sub_items > 0 && self.sub_selection < max_sub_items - 1 {
                self.sub_selection = self.sub_selection + 1;
            }
        } else if max_items > 0 && self.selected < max_items - 1 {
            self.selected = self.selected + 1;
        }
    }

    /// Starts choosing a value, from `current_sub_index`.
    pub fn start_edit(&mut self, current_sub_index: usize)
        ensures
            final(self).editing,
            final(self).sub_selection == current_sub_index,
            final(self).selected == old(self).selected,
            final(self).security_action == old(self).security_action,
    {
        self.editing = true;
        self.sub_selection = current_sub_index;
    }

    /// Stops choosing a value.
    pub fn cancel_edit(&mut self)
        ensures
            !final(self).editing,
            final(self).sub_selection == old(self).sub_selection,
            final(self).selected == old(self).selected,
            final(self).security_action == old(self).security_action,
    {
        self.editing = false;
    }

    /// Stops choosing and returns the chosen index.
    pub fn confirm_edit(&mut self) -> (r: usize)
        ensures
            !final(self).editing,
            r == old(self).sub_selection,
            final(self).sub_selection == old(self).sub_selection,
            final(self).selected == old(self).selected,
            final(self).security_action == old(self).security_action,
    {
        self.editing = false;
        self.sub_selection
    }
}

/// A setting of the settings screen.
#[derive(Debug, Clone, Copy, PartialEq, Eq, Structural)]
pub enum SettingKind {
    Theme,
    IconColor,
    AutoLock,
    AutoLockTimeout,
    ClipboardTimeout,
    ShowIcons,
    MouseEnabled,
    ChangeMasterPassword,
    AddKeyfile,
    ManageRecovery,
    ConfigureRecovery,
}

/// Every setting, in screen order.
pub open spec fn all_settings() -> Seq<SettingKind> {
    seq![
        SettingKind::Theme,
        SettingKind::IconColor,
        SettingKind::AutoLock,
        SettingKind::AutoLockTimeout,
        SettingKind::ClipboardTimeout,
        SettingKind::ShowIcons,
        SettingKind::MouseEnabled,
        SettingKind::ChangeMasterPassword,
        SettingKind::AddKeyfile,
        SettingKind::ManageRecovery,
        SettingKind::ConfigureRecovery,
    ]
}

/// Label of a setting.
pub open spec fn setting_label(k: SettingKind) -> Seq<char> {
    match k {
        SettingKind::Theme => "Theme"@,
        SettingKind::IconColor => "Icon Color"@,
        SettingKind::AutoLock => "Auto-Lock"@,
        SettingKind::AutoLockTimeout => "Auto-Lock Timeout"@,
        SettingKind::ClipboardTimeout => "Clipboard Timeout"@,
        SettingKind::ShowIcons => "Show Icons"@,
        SettingKind::MouseEnabled => "Mouse Support"@,
        SettingKind::ChangeMasterPassword => "Change Master Password"@,
        SettingKind::AddKeyfile => "Add/Change Keyfile"@,
        SettingKind::ManageRecovery => "Manage Recovery Questions"@,
        SettingKind::ConfigureRecovery => "Configure Recovery"@,
    }
}

/// Nerd Font icon of a setting.
pub open spec fn setting_icon(k: SettingKind) -> Seq<char> {
    match k {
        SettingKind::Theme => "\u{f03d8}"@,
        SettingKind::IconColor => "\u{f03d8}"@,
        SettingKind::AutoLock => "\u{f023}"@,
        SettingKind::AutoLockTimeout => "\u{f017}"@,
        SettingKind::ClipboardTimeout => "\u{f0c5}"@,
        SettingKind::ShowIcons => ""@,
        SettingKind::MouseEnabled => "\u{f037d}"@,
        SettingKind::ChangeMasterPassword => "\u{f033e}"@,
        SettingKind::AddKeyfile => "\u{f0306}"@,
        SettingKind::ManageRecovery => "\u{f1781}"@,
        SettingKind::ConfigureRecovery => "\u{f1781}"@,
    }
}

impl SettingKind {
    /// Every setting, in screen order.
    pub fn all() -> (r: &'static [SettingKind])
        ensures
            r@ == all_settings(),
    {
        let r: &'static [SettingKind] = &[
            SettingKind::Theme,
            SettingKind::IconColor,
            SettingKind::AutoLock,
            SettingKind::AutoLockTimeout,
            SettingKind::ClipboardTimeout,
            SettingKind::ShowIcons,
            SettingKind::MouseEnabled,
            SettingKind::ChangeMasterPassword,
            SettingKind::AddKeyfile,
            SettingKind::ManageRecovery,
            SettingKind::ConfigureRecovery,
        ];
        assert(r@ =~= all_settings());
        r
    }

    /// Label.
    pub fn label(&self) -> (r: &'static str)
        ensures
            r@ == setting_label(*self),
    {
        match self {
            SettingKind::Theme => "Theme",
            SettingKind::IconColor => "Icon Color",
            SettingKind::AutoLock => "Auto-Lock",
            SettingKind::AutoLockTimeout => "Auto-Lock Timeout",
            SettingKind::ClipboardTimeout => "Clipboard Timeout",
            SettingKind::ShowIcons => "Show Icons",
            SettingKind::MouseEnabled => "Mouse Support",
            SettingKind::ChangeMasterPassword => "Change Master Password",
            SettingKind::AddKeyfile => "Add/Change Keyfile",
            SettingKind::ManageRecovery => "Manage Recovery Questions",
            SettingKind::ConfigureRecovery => "Configure Recovery",
        }
    }

    /// Nerd Font icon.
    pub fn icon(&self) -> (r: &'static str)
        ensures
            r@ == setting_icon(*self),
    {
        match self {
            SettingKind::Theme => "\u{f03d8}",
            SettingKind::IconColor => "\u{f03d8}",
            SettingKind::AutoLock => "\u{f023}",
            SettingKind::AutoLockTimeout => "\u{f017}",
            SettingKind::ClipboardTimeout => "\u{f0c5}",
            SettingKind::ShowIcons => "",
            SettingKind::MouseEnabled => "\u{f037d}",
            SettingKind::ChangeMasterPassword => "\u{f033e}",
            SettingKind::AddKeyfile => "\u{f0306}",
            SettingKind::ManageRecovery => "\u{f1781}",
            SettingKind::ConfigureRecovery => "\u{f1781}",
        }
    }
}

/// The auto-lock timeouts offered, in seconds.
pub open spec fn auto_lock_choices() -> Seq<u64> {
    seq![60u64, 120u64, 300u64, 600u64, 1800u64]
}

/// The clipboard timeouts offered, in seconds; 0 is "Never".
pub open spec fn clipboard_choices() -> Seq<u64> {
    seq![10u64, 30u64, 60u64, 120u64, 0u64]
}

/// The number of values offered for the setting at `setting_index`.
pub open spec fn option_count(setting_index: nat) -> nat {
    if setting_index >= all_settings().len() {
        0
    } else {
        match all_settings()[setting_index as int] {
            SettingKind::Theme => all_themes().len(),
            SettingKind::IconColor => all_icon_colors().len(),
            SettingKind::AutoLock | SettingKind::ShowIcons | SettingKind::MouseEnabled => 2,
            SettingKind::AutoLockTimeout | SettingKind::ClipboardTimeout => 5,
            _ => 0,
        }
    }
}

/// The index, among the values offered, of the configured value of the
/// setting at `setting_index`; a value that is not offered shows as the last
/// one, an unknown theme as the first.
pub open spec fn current_option(config: AppConfig, setting_index: nat) -> nat {
    if setting_index >= all_settings().len() {
        0
    } else {
        match all_settings()[setting_index as int] {
            SettingKind::Theme => if all_themes().contains(config.theme) {
                all_themes().index_of(config.theme) as nat
            } else {
                0
            },
            SettingKind::IconColor => all_icon_colors().index_of(config.icon_color) as nat,
            SettingKind::AutoLock => if config.auto_lock_enabled { 0 } else { 1 },
            SettingKind::ShowIcons => if config.show_icons { 0 } else { 1 },
            SettingKind::MouseEnabled => if config.mouse_enabled { 0 } else { 1 },
            SettingKind::AutoLockTimeout => if auto_lock_choices().take(4).contains(config.auto_lock_timeout_secs) {
                auto_lock_choices().index_of(config.auto_lock_timeout_secs) as nat
            } else {
                4
            },
            SettingKind::ClipboardTimeout => if clipboard_choices().take(4).contains(config.clipboard_timeout_secs) {
                clipboard_choices().index_of(config.clipboard_timeout_secs) as nat
            } else {
                4
            },
            _ => 0,
        }
    }
}

/// The configuration after choosing the value at `option_index` for the
/// setting at `setting_index`: the first value means "on" for switches, an
/// index past the timeouts offered means the last one, and an index past the
/// themes changes nothing.
pub open spec fn applied(config: AppConfig, setting_index: nat, option_index: nat) -> AppConfig {
    if setting_index >= all_settings().len() {
        config
    } else {
        match all_settings()[setting_index as int] {
            SettingKind::Theme => if option_index < all_themes().len() {
                AppConfig { theme: all_themes()[option_index as int], ..config }
            } else {
                config
            },
            SettingKind::IconColor => if option_index < all_icon_colors().len() {
                AppConfig { icon_color: all_icon_colors()[option_index as int], ..config }
            } else {
                config
            },
            SettingKind::AutoLock => AppConfig { auto_lock_enabled: option_index == 0, ..config },
            SettingKind::ShowIcons => AppConfig { show_icons: option_index == 0, ..config },
            SettingKind::MouseEnabled => AppConfig { mouse_enabled: option_index == 0, ..config },
            SettingKind::AutoLockTimeout => AppConfig {
                auto_lock_timeout_secs: auto_lock_choices()[if option_index < 4 { option_index as int } else { 4 }],
                ..config
            },
            SettingKind::ClipboardTimeout => AppConfig {
                clipboard_timeout_secs: clipboard_choices()[if option_index < 4 { option_index as int } else { 4 }],
                ..config
            },
            _ => config,
        }
    }
}

/// Position of an icon color among those offered.
fn icon_color_index(c: IconColorChoice) -> (r: usize)
    ensures
        r == all_icon_colors().index_of(c),
{
    proof {
        lemma_icon_colors_listed(c);
    }
    match c {
        IconColorChoice::ThemeDefault => 0,
        IconColorChoice::Red => 1,
        IconColorChoice::Green => 2,
        IconColorChoice::Blue => 3,
        IconColorChoice::Yellow => 4,
        IconColorChoice::Magenta => 5,
        IconColorChoice::Cyan => 6,
        IconColorChoice::White => 7,
    }
}

/// Every icon color is offered, once.
proof fn lemma_icon_colors_listed(c: IconColorChoice)
    ensures
        all_icon_colors().contains(c),
        all_icon_colors().no_duplicates(),
        all_icon_colors()[all_icon_colors().index_of(c)] == c,
        0 <= all_icon_colors().index_of(c) < all_icon_colors().len(),
{
    let cs = all_icon_colors();
    assert(cs[0] == IconColorChoice::ThemeDefault);
    assert(cs[1] == IconColorChoice::Red);
    assert(cs[2] == IconColorChoice::Green);
    assert(cs[3] == IconColorChoice::Blue);
    assert(cs[4] == IconColorChoice::Yellow);
    assert(cs[5] == IconColorChoice::Magenta);
    assert(cs[6] == IconColorChoice::Cyan);
    assert(cs[7] == IconColorChoice::White);
    assert(cs.contains(c));
    let k = cs.index_of(c);
    assert(cs[k] == c);
}

/// The index, among the values offered, of the configured value of the
/// setting at `setting_index`.
pub fn get_current_sub_index(state: &AppState, setting_index: usize) -> (r: usize)
    ensures
        r == current_option(state.config, setting_index as nat),
{
    let settings = SettingKind::all();
    if setting_index >= settings.len() {
        return 0;
    }
    let config = &state.config;
    match settings[setting_index] {
        SettingKind::Theme => {
            let themes = ThemeChoice::all();
            let mut i: usize = 0;
            while i < themes.len()
                invariant
                    themes@ == all_themes(),
                    settings@ == all_settings(),
                    setting_index < all_settings().len(),
                    all_settings()[setting_index as int] == SettingKind::Theme,
                    *config == state.config,
                    i <= themes@.len(),
                    forall|k: int| 0 <= k < i ==> themes@[k] != config.theme,
                decreases themes@.len() - i,
            {
                if themes[i] == config.theme {
                    proof {
                        assert(all_themes().contains(config.theme));
                        let k = all_themes().index_of(config.theme);
                        assert(all_themes()[k] == config.theme);
                        assert(all_themes().no_duplicates());
                        assert(all_themes()[i as int] == config.theme);
                        assert(k == i);
                    }
                    return i;
                }
                i = i + 1;
            }
            0
        },
        SettingKind::IconColor => icon_color_index(config.icon_color),
        SettingKind::AutoLock => if config.auto_lock_enabled { 0 } else { 1 },
        SettingKind::ShowIcons => if config.show_icons { 0 } else { 1 },
        SettingKind::MouseEnabled => if config.mouse_enabled { 0 } else { 1 },
        SettingKind::AutoLockTimeout => {
            proof {
                let c = auto_lock_choices();
                assert(c.take(4) =~= seq![60u64, 120u64, 300u64, 600u64]);
                if c.take(4).contains(config.auto_lock_timeout_secs) {
                    let k = c.index_of(config.auto_lock_timeout_secs);
                    assert(c[k] == config.auto_lock_timeout_secs);
                }
            }
            match config.auto_lock_timeout_secs {
                60 => 0,
                120 => 1,
                300 => 2,
                600 => 3,
                _ => 4,
            }
        },
        SettingKind::ClipboardTimeout => {
            proof {
                let c = clipboard_choices();
                assert(c.take(4) =~= seq![10u64, 30u64, 60u64, 120u64]);
                if c.take(4).contains(config.clipboard_timeout_secs) {
                    let k = c.index_of(config.clipboard_timeout_secs);
                    assert(c[k] == config.clipboard_timeout_secs);
                }
            }
            match config.clipboard_timeout_secs {
                10 => 0,
                30 => 1,
                60 => 2,
                120 => 3,
                _ => 4,
            }
        },
        SettingKind::ChangeMasterPassword
        | SettingKind::AddKeyfile
        | SettingKind::ManageRecovery
        | SettingKind::ConfigureRecovery => 0,
    }
}

/// Chooses the value at `option_index` for the setting at `setting_index`.
pub fn apply_setting(state: &mut AppState, setting_index: usize, option_index: usize)
    ensures
        final(state).config == applied(old(state).config, setting_index as nat, option_index as nat),
        *final(state) == (AppState { config: final(state).config, ..*old(state) }),
{
    let settings = SettingKind::all();
    if setting_index >= settings.len() {
        return;
    }
    match settings[setting_index] {
        SettingKind::Theme => {
            let themes = ThemeChoice::all();
            if option_index < themes.len() {
                state.config.theme = themes[option_index];
            }
        },
        SettingKind::IconColor => {
            let colors = IconColorChoice::all();
            if option_index < colors.len() {
                state.config.icon_color = colors[option_index];
            }
        },
        SettingKind::AutoLock => {
            state.config.auto_lock_enabled = option_index == 0;
        },
        SettingKind::ShowIcons => {
            state.config.show_icons = option_index == 0;
        },
        SettingKind::MouseEnabled => {
            state.config.mouse_enabled = option_index == 0;
        },
        SettingKind::AutoLockTimeout => {
            state.config.auto_lock_timeout_secs = match option_index {
                0 => 60,
                1 => 120,
                2 => 300,
                3 => 600,
                _ => 1800,
            };
        },
        SettingKind::ClipboardTimeout => {
            state.config.clipboard_timeout_secs = match option_index {
                0 => 10,
                1 => 30,
                2 => 60,
                3 => 120,
                _ => 0,
            };
        },
        SettingKind::ChangeMasterPassword
        | SettingKind::AddKeyfile
        | SettingKind::ManageRecovery
        | SettingKind::ConfigureRecovery => {},
    }
}

/// What the settings list shows as the value of a setting.
pub open spec fn setting_value(config: AppConfig, k: SettingKind) -> Seq<char> {
    match k {
        SettingKind::Theme => theme_name(config.theme),
        SettingKind::IconColor => icon_color_name(config.icon_color),
        SettingKind::AutoLock => if config.auto_lock_enabled { "Enabled"@ } else { "Disabled"@ },
        SettingKind::AutoLockTimeout => decimal(config.auto_lock_timeout_secs as nat) + "s"@,
        SettingKind::ClipboardTimeout => decimal(config.clipboard_timeout_secs as nat) + "s"@,
        SettingKind::ShowIcons => if config.show_icons { "Yes"@ } else { "No"@ },
        SettingKind::MouseEnabled => if config.mouse_enabled { "Enabled"@ } else { "Disabled"@ },
        _ => "Action"@,
    }
}

/// The value shown for a setting.
pub fn get_setting_value(state: &AppState, setting: &SettingKind) -> (r: String)
    ensures
        r@ == setting_value(state.config, *setting),
{
    let config = &state.config;
    match setting {
        SettingKind::Theme => String::from_str(config.theme.display_name()),
        SettingKind::IconColor => String::from_str(config.icon_color.display_name()),
        SettingKind::AutoLock => if config.auto_lock_enabled {
            String::from_str("Enabled")
        } else {
            String::from_str("Disabled")
        },
        SettingKind::AutoLockTimeout => {
            let mut t = decimal_string(config.auto_lock_timeout_secs);
            t.append("s");
            t
        },
        SettingKind::ClipboardTimeout => {
            let mut t = decimal_string(config.clipboard_timeout_secs);
            t.append("s");
            t
        },
        SettingKind::ShowIcons => if config.show_icons {
            String::from_str("Yes")
        } else {
            String::from_str("No")
        },
        SettingKind::MouseEnabled => if config.mouse_enabled {
            String::from_str("Enabled")
        } else {
            String::from_str("Disabled")
        },
        _ => String::from_str("Action"),
    }
}

/// The values a setting offers, as the list of choices shows them.
pub open spec fn setting_options(k: SettingKind) -> Seq<Seq<char>> {
    match k {
        SettingKind::Theme => all_themes().map_values(|t: ThemeChoice| theme_name(t)),
        SettingKind::IconColor => all_icon_colors().map_values(|c: IconColorChoice| icon_color_name(c)),
        SettingKind::AutoLock | SettingKind::ShowIcons | SettingKind::MouseEnabled => seq!["Enabled"@, "Disabled"@],
        SettingKind::AutoLockTimeout => seq!["60s"@, "120s"@, "300s"@, "600s"@, "1800s"@],
        SettingKind::ClipboardTimeout => seq!["10s"@, "30s"@, "60s"@, "120s"@, "Never"@],
        _ => Seq::empty(),
    }
}

/// The values a setting offers.
pub fn get_setting_options(_state: &AppState, setting: &SettingKind) -> (r: Vec<String>)
    ensures
        string_views(r@) == setting_options(*setting),
{
    let mut r: Vec<String> = Vec::new();
    match setting {
        SettingKind::Theme => {
            let themes = ThemeChoice::all();
            let mut i: usize = 0;
            while i < themes.len()
                invariant
                    themes@ == all_themes(),
                    i <= themes@.len(),
                    r@.len() == i,
                    string_views(r@) == all_themes().take(i as int).map_values(|t: ThemeChoice| theme_name(t)),
                decreases themes@.len() - i,
            {
                let ghost prev = r@;
                r.push(String::from_str(themes[i].display_name()));
                assert(string_views(r@) =~= all_themes().take(i + 1).map_values(|t: ThemeChoice| theme_name(t))) by {
                    assert(string_views(prev) =~= all_themes().take(i as int).map_values(|t: ThemeChoice| theme_name(t)));
                    assert forall|j: int| 0 <= j < i implies #[trigger] string_views(r@)[j] == string_views(prev)[j] by {
                        assert(r@[j] == prev[j]);
                    }
                }
                i = i + 1;
            }
            assert(all_themes().take(themes@.len() as int) =~= all_themes());
        },
        SettingKind::IconColor => {
            let colors = IconColorChoice::all();
            let mut i: usize = 0;
            while i < colors.len()
                invariant
                    colors@ == all_icon_colors(),
                    i <= colors@.len(),
                    r@.len() == i,
                    string_views(r@) == all_icon_colors().take(i as int).map_values(|c: IconColorChoice| icon_color_name(c)),
                decreases colors@.len() - i,
            {
                let ghost prev = r@;
                r.push(String::from_str(colors[i].display_name()));
                assert(string_views(r@) =~= all_icon_colors().take(i + 1).map_values(|c: IconColorChoice| icon_color_name(c))) by {
                    assert(string_views(prev) =~= all_icon_colors().take(i as int).map_values(|c: IconColorChoice| icon_color_name(c)));
                    assert forall|j: int| 0 <= j < i implies #[trigger] string_views(r@)[j] == string_views(prev)[j] by {
                        assert(r@[j] == prev[j]);
                    }
                }
                i = i + 1;
            }
            assert(all_icon_colors().take(colors@.len() as int) =~= all_icon_colors());
        },
        SettingKind::AutoLock | SettingKind::ShowIcons | SettingKind::MouseEnabled => {
            r.push(String::from_str("Enabled"));
            r.push(String::from_str("Disabled"));
            assert(string_views(r@) =~= setting_options(*setting));
        },
        SettingKind::AutoLockTimeout => {
            r.push(String::from_str("60s"));
            r.push(String::from_str("120s"));
            r.push(String::from_str("300s"));
            r.push(String::from_str("600s"));
            r.push(String::from_str("1800s"));
            assert(string_views(r@) =~= setting_options(*setting));
        },
        SettingKind::ClipboardTimeout => {
            r.push(String::from_str("10s"));
            r.push(String::from_str("30s"));
            r.push(String::from_str("60s"));
            r.push(String::from_str("120s"));
            r.push(String::from_str("Never"));
            assert(string_views(r@) =~= setting_options(*setting));
        },
        _ => {
            assert(string_views(r@) =~= setting_options(*setting));
        },
    }
    r
}

/// Whether a configured value is one of the values offered for its setting.
pub open spec fn offered(config: AppConfig, setting_index: nat) -> bool {
    setting_index < all_settings().len() ==> match all_settings()[setting_index as int] {
        SettingKind::AutoLockTimeout => auto_lock_choices().contains(config.auto_lock_timeout_secs),
        SettingKind::ClipboardTimeout => clipboard_choices().contains(config.clipboard_timeout_secs),
        _ => true,
    }
}

/// Choosing the value shown as current changes nothing, when the configured
/// value is one of those offered; and the value chosen is then shown as
/// current.
pub proof fn lemma_setting_roundtrip(config: AppConfig, setting_index: nat, option_index: nat)
    requires
        offered(config, setting_index),
    ensures
        applied(config, setting_index, current_option(config, setting_index)) == config,
        option_index < option_count(setting_index) ==> current_option(
            applied(config, setting_index, option_index),
            setting_index,
        ) == option_index,
{
    let themes = all_themes();
    assert(themes.no_duplicates());
    if themes.contains(config.theme) {
        let k = themes.index_of(config.theme);
        assert(themes[k] == config.theme);
    }
    assert(themes.contains(config.theme)) by {
        assert(themes[0] == ThemeChoice::CatppuccinLatte);
        assert(themes[1] == ThemeChoice::CatppuccinFrappe);
        assert(themes[2] == ThemeChoice::CatppuccinMacchiato);
        assert(themes[3] == ThemeChoice::CatppuccinMocha);
        assert(themes[4] == ThemeChoice::TokyoNightNight);
        assert(themes[5] == ThemeChoice::TokyoNightStorm);
        assert(themes[6] == ThemeChoice::TokyoNightDay);
    }
    lemma_icon_colors_listed(config.icon_color);
    let a = auto_lock_choices();
    let c = clipboard_choices();
    assert(a.take(4) =~= seq![60u64, 120u64, 300u64, 600u64]);
    assert(c.take(4) =~= seq![10u64, 30u64, 60u64, 120u64]);
    if a.contains(config.auto_lock_timeout_secs) {
        let k = a.index_of(config.auto_lock_timeout_secs);
        assert(a[k] == config.auto_lock_timeout_secs);
    }
    if c.contains(config.clipboard_timeout_secs) {
        let k = c.index_of(config.clipboard_timeout_secs);
        assert(c[k] == config.clipboard_timeout_secs);
    }
    if option_index < option_count(setting_index) && setting_index < all_settings().len() {
        let applied_config = applied(config, setting_index, option_index);
        if all_settings()[setting_index as int] == SettingKind::Theme {
            let t = themes[option_index as int];
            assert(themes.contains(t));
            let k = themes.index_of(t);
            assert(themes[k] == t);
        }
        if all_settings()[setting_index as int] == SettingKind::IconColor {
            lemma_icon_colors_listed(all_icon_colors()[option_index as int]);
            let t = all_icon_colors()[option_index as int];
            let k = all_icon_colors().index_of(t);
            assert(all_icon_colors()[k] == t);
        }
        if all_settings()[setting_index as int] == SettingKind::AutoLockTimeout && option_index < 4 {
            let v = a[option_index as int];
            assert(a.take(4).contains(v)) by {
                assert(a.take(4)[option_index as int] == v);
            }
            let k = a.index_of(v);
            assert(a[k] == v);
        }
        if all_settings()[setting_index as int] == SettingKind::ClipboardTimeout && option_index < 4 {
            let v = c[option_index as int];
            assert(c.take(4).contains(v)) by {
                assert(c.take(4)[option_index as int] == v);
            }
            let k = c.index_of(v);
            assert(c[k] == v);
        }
    }
}

} // verus!
