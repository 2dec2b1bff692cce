//! Application state: modes, screens, panes, the input buffer, clipboard
//! tracking and item filters.
use vstd::prelude::*;

use crate::clock::{instant_now, millis_since, new_id, now_millis};
use crate::crypto::cipher::EncryptionMethod;
use crate::domain::item::{CustomField, Item, ItemContent, field_type_name, opt_view};
use crate::domain::security_question::RecoveryMetadata;
use crate::domain::vault::{Vault, item_position};
use crate::input::mouse::{ClickRegion, LayoutRegions, UiRegion, other_region};
use crate::storage::config::AppConfig;
use crate::storage::registry::VaultRegistry;
use crate::ui::screens::login::LoginScreen;
use crate::ui::screens::settings::SettingsScreen;
use crate::ui::widgets::edit_form::{EditFormState, FormField, fields_for};
use crate::ui::widgets::kind_selector::{KindSelectorState, offered_kinds};
use crate::ui::widgets::search_dialog::SearchState;
use crate::cursor::{backspace_at_cursor, backspaced, byte_len, char_index, cursor_left, cursor_right, delete_at_cursor, deleted, insert_at_cursor, inserted, is_boundary, left_of, lemma_end_is_boundary, right_of, utf8_len};
use crate::domain::item::ItemKind;

verus! {

/// Application mode.
#[derive(Debug, Clone, Copy, PartialEq, Eq, Structural)]
pub enum AppMode {
    /// No vault loaded, at the login screen.
    Locked,
    /// A vault is unlocked.
    Unlocked,
    /// A new vault is being created.
    Creating,
    /// Vault data is being exported.
    Exporting,
}

impl Default for AppMode {
    fn default() -> (r: AppMode)
        ensures
            r == AppMode::Locked,
    {
        AppMode::Locked
    }
}

/// The screen on display.
#[derive(Debug, Clone, Copy, PartialEq, Eq, Structural)]
pub enum Screen {
    /// Vault selection and unlock.
    Login,
    /// Item list and detail.
    Main,
    /// Settings.
    Settings,
    /// Export dialog.
    Export,
    /// Security questions setup.
    SecurityQuestions,
    /// Forgot-password flow.
    PasswordRecovery,
}

impl Default for Screen {
    fn default() -> (r: Screen)
        ensures
            r == Screen::Login,
    {
        Screen::Login
    }
}

/// The focused pane of the main screen.
#[derive(Debug, Clone, Copy, PartialEq, Eq, Structural)]
pub enum Pane {
    /// Item list.
    List,
    /// Item detail.
    Detail,
    /// Search input.
    Search,
}

impl Default for Pane {
    fn default() -> (r: Pane)
        ensures
            r == Pane::List,
    {
        Pane::List
    }
}

/// Severity of a notification.
#[derive(Debug, Clone, Copy, PartialEq, Eq, Structural)]
pub enum NotificationLevel {
    Info,
    Success,
    Warning,
    Error,
}

impl Default for NotificationLevel {
    fn default() -> (r: NotificationLevel)
        ensures
            r == NotificationLevel::Info,
    {
        NotificationLevel::Info
    }
}

/// Whether the clipboard holds sensitive content, and when to clear it.
#[derive(Debug)]
pub struct ClipboardState {
    /// Whether the clipboard holds sensitive content.
    pub has_secure_content: bool,
    /// When to clear the clipboard, in milliseconds of the monotonic clock
    /// since `origin`.
    pub clear_at: Option<u128>,
    /// The instant the clearing times are counted from.
    pub origin: std::time::Instant,
}

/// The clearing time `secs` seconds after `now_ms`, where a `u128` of
/// milliseconds can hold it.
pub open spec fn clear_time(now_ms: u128, secs: u64) -> Option<u128> {
    if now_ms + secs * 1000 <= u128::MAX {
        Some((now_ms + secs * 1000) as u128)
    } else {
        None
    }
}

impl Default for ClipboardState {
    fn default() -> (r: ClipboardState)
        ensures
            !r.has_secure_content,
            r.clear_at is None,
    {
        ClipboardState { has_secure_content: false, clear_at: None, origin: instant_now() }
    }
}

impl ClipboardState {
    /// Marks the clipboard as holding sensitive content, to be cleared
    /// `clear_after_secs` seconds after the current reading of the monotonic
    /// clock (counted from `origin`).
    pub fn set_secure(&mut self, clear_after_secs: u64)
        ensures
            final(self).has_secure_content,
            final(self).origin == old(self).origin,
            exists|now_ms: u128| final(self).clear_at == clear_time(now_ms, clear_after_secs),
    {
        let now_ms = millis_since(&self.origin);
        self.set_secure_at(now_ms, clear_after_secs);
    }

    /// Marks the clipboard as holding sensitive content, to be cleared
    /// `clear_after_secs` seconds after `now_ms`.
    pub fn set_secure_at(&mut self, now_ms: u128, clear_after_secs: u64)
        ensures
            final(self).has_secure_content,
            final(self).origin == old(self).origin,
            final(self).clear_at == clear_time(now_ms, clear_after_secs),
    {
        self.has_secure_content = true;
        let delay: u128 = (clear_after_secs as u128) * 1000;
        self.clear_at = now_ms.checked_add(delay);
    }

    /// Forgets the sensitive content and the scheduled clearing.
    pub fn clear(&mut self)
        ensures
            !final(self).has_secure_content,
            final(self).clear_at is None,
    {
        self.has_secure_content = false;
        self.clear_at = None;
    }

    /// Whether a clearing is scheduled and the monotonic clock has reached it.
    pub fn should_clear(&self) -> (r: bool)
        ensures
            self.clear_at is None ==> !r,
            exists|now_ms: u128| r == self.clear_due_at(now_ms),
    {
        let now_ms = millis_since(&self.origin);
        self.should_clear_at(now_ms)
    }

    /// Whether a clearing is scheduled at or before `now_ms`.
    pub open spec fn clear_due_at(&self, now_ms: u128) -> bool {
        match self.clear_at {
            Some(t) => now_ms >= t,
            None => false,
        }
    }

    /// Whether a clearing is scheduled at or before `now_ms`.
    pub fn should_clear_at(&self, now_ms: u128) -> (r: bool)
        ensures
            r == self.clear_due_at(now_ms),
    {
        match self.clear_at {
            Some(t) => now_ms >= t,
            None => false,
        }
    }
}

/// A one-line text input with a cursor counted in UTF-8 bytes.
#[derive(Debug, Clone)]
pub struct InputBuffer {
    /// The text typed so far.
    pub text: String,
    /// Cursor position, in bytes.
    pub cursor: usize,
    /// Whether the text is shown masked (passwords).
    pub masked: bool,
}

/// The mask char shown in place of each char of a hidden input.
pub open spec fn mask_char() -> char {
    '\u{2022}'
}

/// `n` mask chars.
pub open spec fn masked_text(n: nat) -> Seq<char> {
    Seq::new(n, |i: int| mask_char())
}

impl Default for InputBuffer {
    fn default() -> (r: InputBuffer)
        ensures
            r.text@ == Seq::<char>::empty(),
            r.cursor == 0,
            !r.masked,
            r.wf(),
    {
        let r = InputBuffer { text: String::new(), cursor: 0, masked: false };
        proof {
            lemma_end_is_boundary(r.text@);
        }
        r
    }
}

impl InputBuffer {
    /// The cursor falls between two chars of the text, whose length fits
    /// in a `usize`.
    pub open spec fn wf(&self) -> bool {
        &&& is_boundary(self.text@, self.cursor as int)
        &&& utf8_len(self.text@) <= usize::MAX
    }

    /// The number of chars before the cursor.
    pub open spec fn cursor_chars(&self) -> int {
        char_index(self.text@, self.cursor as int)
    }

    /// An empty, unmasked buffer.
    pub fn new() -> (r: InputBuffer)
        ensures
            r.text@ == Seq::<char>::empty(),
            r.cursor == 0,
            !r.masked,
            r.wf(),
    {
        InputBuffer::default()
    }

    /// An empty, masked buffer.
    pub fn masked() -> (r: InputBuffer)
        ensures
            r.text@ == Seq::<char>::empty(),
            r.cursor == 0,
            r.masked,
            r.wf(),
    {
        let mut r = InputBuffer::default();
        r.masked = true;
        r
    }

    /// Inserts `c` at the cursor and moves the cursor past it.
    pub fn insert(&mut self, c: char)
        requires
            old(self).wf(),
            utf8_len(old(self).text@) + 4 <= usize::MAX,
        ensures
            final(self).wf(),
            (final(self).text@, final(self).cursor as int) == inserted(
                old(self).text@,
                old(self).cursor as int,
                c,
            ),
            final(self).masked == old(self).masked,
    {
        let nb = insert_at_cursor(&mut self.text, self.cursor, c);
        self.cursor = nb;
    }

    /// Deletes the char before the cursor, if any.
    pub fn backspace(&mut self)
        requires
            old(self).wf(),
        ensures
            final(self).wf(),
            (final(self).text@, final(self).cursor as int) == backspaced(
                old(self).text@,
                old(self).cursor as int,
            ),
            final(self).masked == old(self).masked,
    {
        let nb = backspace_at_cursor(&mut self.text, self.cursor);
        self.cursor = nb;
    }

    /// Deletes the char at the cursor, if any.
    pub fn delete(&mut self)
        requires
            old(self).wf(),
        ensures
            final(self).wf(),
            final(self).text@ == deleted(old(self).text@, old(self).cursor as int),
            final(self).cursor == old(self).cursor,
            final(self).masked == old(self).masked,
    {
        delete_at_cursor(&mut self.text, self.cursor);
    }

    /// Moves the cursor one char to the left, if it can.
    pub fn move_left(&mut self)
        requires
            old(self).wf(),
        ensures
            final(self).wf(),
            final(self).text@ == old(self).text@,
            final(self).cursor == cursor_left(old(self).text@, old(self).cursor as int),
            final(self).masked == old(self).masked,
    {
        self.cursor = left_of(self.text.as_str(), self.cursor);
    }

    /// Moves the cursor one char to the right, if it can.
    pub fn move_right(&mut self)
        requires
            old(self).wf(),
        ensures
            final(self).wf(),
            final(self).text@ == old(self).text@,
            final(self).cursor == cursor_right(old(self).text@, old(self).cursor as int),
            final(self).masked == old(self).masked,
    {
        self.cursor = right_of(self.text.as_str(), self.cursor);
    }

    /// Moves the cursor to the start.
    pub fn home(&mut self)
        requires
            old(self).wf(),
        ensures
            final(self).wf(),
            final(self).text@ == old(self).text@,
            final(self).cursor == 0,
            final(self).masked == old(self).masked,
    {
        proof {
            lemma_end_is_boundary(self.text@);
        }
        self.cursor = 0;
    }

    /// Moves the cursor to the end.
    pub fn end(&mut self)
        requires
            old(self).wf(),
        ensures
            final(self).wf(),
            final(self).text@ == old(self).text@,
            final(self).cursor == utf8_len(old(self).text@),
            final(self).masked == old(self).masked,
    {
        proof {
            lemma_end_is_boundary(self.text@);
        }
        self.cursor = byte_len(self.text.as_str());
    }

    /// Empties the buffer.
    pub fn clear(&mut self)
        ensures
            final(self).wf(),
            final(self).text@ == Seq::<char>::empty(),
            final(self).cursor == 0,
            final(self).masked == old(self).masked,
    {
        self.text = String::new();
        self.cursor = 0;
        proof {
            lemma_end_is_boundary(self.text@);
        }
    }

    /// The text to show: one mask char per char when masked, else the text.
    pub fn display(&self) -> (r: String)
        ensures
            r@ == if self.masked { masked_text(self.text@.len()) } else { self.text@ },
    {
        if self.masked {
            let n = self.text.as_str().unicode_len();
            let mut r = String::new();
            let mut i: usize = 0;
            while i < n
                invariant
                    i <= n,
                    r@ =~= masked_text(i as nat),
                decreases n - i,
            {
                crate::crypto::secure_string::string_push(&mut r, '\u{2022}');
                i = i + 1;
            }
            r
        } else {
            self.text.clone()
        }
    }
}

/// Filters of the item list.
#[derive(Debug, Clone)]
pub struct FilterState {
    /// Only items of this kind.
    pub kind: Option<ItemKind>,
    /// Only items with these tags.
    pub tags: Vec<u128>,
    /// Only favorite items.
    pub favorites_only: bool,
}

impl Default for FilterState {
    fn default() -> (r: FilterState)
        ensures
            r.kind is None,
            r.tags@ == Seq::<u128>::empty(),
            !r.favorites_only,
    {
        FilterState { kind: None, tags: Vec::new(), favorites_only: false }
    }
}

impl FilterState {
    /// Whether some filter is set.
    pub open spec fn active(&self) -> bool {
        self.kind is Some || self.tags@.len() > 0 || self.favorites_only
    }

    /// Whether some filter is set.
    pub fn is_active(&self) -> (r: bool)
        ensures
            r == self.active(),
    {
        self.kind.is_some() || self.tags.len() > 0 || self.favorites_only
    }

    /// Removes every filter.
    pub fn clear(&mut self)
        ensures
            !final(self).active(),
            final(self).kind is None,
            final(self).tags@ == Seq::<u128>::empty(),
            !final(self).favorites_only,
    {
        self.kind = None;
        self.tags.clear();
        self.favorites_only = false;
    }
}

/// The state of an item before a change.
#[derive(Debug, Clone)]
pub struct ItemSnapshot {
    /// The whole item.
    pub item: Item,
}

impl ItemSnapshot {
    /// A copy of `item`.
    pub fn from_item(item: &Item) -> (r: ItemSnapshot)
        ensures
            r.item.same_as(*item),
    {
        ItemSnapshot { item: item.duplicate() }
    }
}

/// An undoable (or redoable) change: the item's state before it.
#[derive(Debug, Clone)]
pub struct UndoEntry {
    /// What the change was.
    pub description: String,
    /// The item changed.
    pub item_id: u128,
    /// The item before the change.
    pub previous_state: ItemSnapshot,
}

/// The state of an unlocked vault.
#[derive(Debug)]
pub struct VaultState {
    /// The vault.
    pub vault: Vault,
    /// Path of its file.
    pub vault_path: String,
    /// The key derived when unlocking, kept to save without asking again.
    pub encryption_key: [u8; 32],
    /// The salt of the key, kept for saving.
    pub salt: [u8; 32],
    /// Whether the vault needs a key file.
    pub has_keyfile: bool,
    /// Cipher of the vault file.
    pub encryption_method: EncryptionMethod,
    /// Recovery setup stored in the header.
    pub recovery_metadata: Option<RecoveryMetadata>,
    /// Whether there are unsaved changes.
    pub is_dirty: bool,
    /// The selected item.
    pub selected_item_id: Option<u128>,
    /// Changes that can be undone, the latest last.
    pub undo_stack: Vec<UndoEntry>,
    /// Undone changes that can be redone, the latest last.
    pub redo_stack: Vec<UndoEntry>,
    /// Last user activity, for auto-lock.
    pub last_activity: std::time::Instant,
}

impl VaultState {
    /// The state of a vault just unlocked: clean, nothing selected, no
    /// history.
    pub fn new(
        vault: Vault,
        vault_path: String,
        encryption_key: [u8; 32],
        salt: [u8; 32],
        has_keyfile: bool,
        encryption_method: EncryptionMethod,
        recovery_metadata: Option<RecoveryMetadata>,
    ) -> (r: VaultState)
        ensures
            r.vault == vault,
            r.vault_path == vault_path,
            r.encryption_key == encryption_key,
            r.salt == salt,
            r.has_keyfile == has_keyfile,
            r.encryption_method == encryption_method,
            r.recovery_metadata == recovery_metadata,
            !r.is_dirty,
            r.selected_item_id is None,
            r.undo_stack@.len() == 0,
            r.redo_stack@.len() == 0,
    {
        VaultState {
            vault,
            vault_path,
            encryption_key,
            salt,
            has_keyfile,
            encryption_method,
            recovery_metadata,
            is_dirty: false,
            selected_item_id: None,
            undo_stack: Vec::new(),
            redo_stack: Vec::new(),
            last_activity: instant_now(),
        }
    }

    /// Records an unsaved change (and activity).
    pub fn mark_dirty(&mut self)
        ensures
            final(self).is_dirty,
            final(self).vault == old(self).vault,
            final(self).selected_item_id == old(self).selected_item_id,
            final(self).undo_stack == old(self).undo_stack,
            final(self).redo_stack == old(self).redo_stack,
            final(self).vault_path == old(self).vault_path,
            final(self).encryption_key == old(self).encryption_key,
            final(self).salt == old(self).salt,
            final(self).has_keyfile == old(self).has_keyfile,
            final(self).encryption_method == old(self).encryption_method,
            final(self).recovery_metadata == old(self).recovery_metadata,
    {
        self.is_dirty = true;
        self.touch();
    }

    /// Records activity now.
    pub fn touch(&mut self)
        ensures
            *final(self) == (VaultState { last_activity: final(self).last_activity, ..*old(self) }),
    {
        self.last_activity = instant_now();
    }

    /// Records an undoable change; what could be redone is forgotten.
    pub fn push_undo(&mut self, entry: UndoEntry)
        ensures
            final(self).undo_stack@ == old(self).undo_stack@.push(entry),
            final(self).redo_stack@.len() == 0,
            *final(self) == (VaultState { undo_stack: final(self).undo_stack, redo_stack: final(self).redo_stack, ..*old(self) }),
    {
        self.undo_stack.push(entry);
        self.redo_stack.clear();
    }

    /// Whether a change can be undone.
    pub fn can_undo(&self) -> (r: bool)
        ensures
            r == (self.undo_stack@.len() > 0),
    {
        self.undo_stack.len() > 0
    }

    /// Whether a change can be redone.
    pub fn can_redo(&self) -> (r: bool)
        ensures
            r == (self.redo_stack@.len() > 0),
    {
        self.redo_stack.len() > 0
    }
}

/// How long a notification shows by default, in seconds.
pub const NOTIFICATION_SECS: i64 = 5;

/// The largest number of seconds a notification may show.
pub const MAX_NOTIFICATION_SECS: i64 = 9223372036854775;

/// A message shown to the user for a while.
#[derive(Debug, Clone)]
pub struct Notification {
    /// Identifier.
    pub id: u128,
    /// The text.
    pub message: String,
    /// Severity.
    pub level: NotificationLevel,
    /// When it stops showing, in milliseconds since the Unix epoch.
    pub expires_at: i64,
}

impl Notification {
    /// A notification showing for five seconds from now.
    pub fn new(message: &str, level: NotificationLevel) -> (r: Notification)
        ensures
            r.message@ == message@,
            r.level == level,
    {
        Notification::with_duration(message, level, NOTIFICATION_SECS)
    }

    /// A notification showing for `seconds` from now.
    pub fn with_duration(message: &str, level: NotificationLevel, seconds: i64) -> (r: Notification)
        requires
            -MAX_NOTIFICATION_SECS <= seconds <= MAX_NOTIFICATION_SECS,
        ensures
            r.message@ == message@,
            r.level == level,
    {
        let now = now_millis();
        let d = seconds * 1000;
        let expires_at = if d > 0 && now > i64::MAX - d {
            i64::MAX
        } else if d < 0 && now < i64::MIN - d {
            i64::MIN
        } else {
            now + d
        };
        Notification { id: new_id(), message: String::from_str(message), level, expires_at }
    }
}

/// A floating window over the screen.
#[derive(Debug, Clone)]
pub enum FloatingWindow {
    /// The search dialog.
    Search { state: SearchState },
    /// Asking to confirm the deletion of an item.
    ConfirmDelete { item_id: u128 },
    /// Asking to confirm the removal of a vault from the list.
    ConfirmDeleteVault { vault_name: String, index: usize },
    /// Choosing the kind of a new item.
    KindSelector { state: KindSelectorState },
    /// The form of a new item.
    NewItem { form: EditFormState },
    /// The form editing an item.
    EditItem { item_id: u128, form: EditFormState },
    /// The keybinding help.
    Help,
    /// The tag filter.
    TagFilter,
}

/// The text a custom field is written as in the form: `type:key=value`.
pub open spec fn custom_field_text(f: CustomField) -> Seq<char> {
    field_type_name(f.field_type) + ":"@ + f.key@ + "="@ + f.value@
}

/// Custom fields written for the form, separated by `;`.
pub open spec fn custom_fields_text(fields: Seq<CustomField>) -> Seq<char>
    decreases fields.len(),
{
    if fields.len() == 0 {
        Seq::empty()
    } else if fields.len() == 1 {
        custom_field_text(fields[0])
    } else {
        custom_fields_text(fields.drop_last()) + ";"@ + custom_field_text(fields.last())
    }
}

/// Writes custom fields for the form.
pub fn format_custom_fields_for_form(fields: &Vec<CustomField>) -> (r: String)
    ensures
        r@ == custom_fields_text(fields@),
{
    proof {
        reveal_strlit(":");
        reveal_strlit("=");
        reveal_strlit(";");
    }
    let mut r = String::new();
    let mut i: usize = 0;
    while i < fields.len()
        invariant
            i <= fields@.len(),
            r@ == custom_fields_text(fields@.take(i as int)),
        decreases fields@.len() - i,
    {
        let f = &fields[i];
        assert(fields@.take(i + 1).drop_last() =~= fields@.take(i as int));
        assert(fields@.take(i + 1).last() == *f);
        if i > 0 {
            r.append(";");
        }
        r.append(f.field_type.as_str());
        r.append(":");
        r.append(f.key.as_str());
        r.append("=");
        r.append(f.value.as_str());
        proof {
            if i == 0 {
                assert(fields@.take(1)[0] == *f);
            }
        }
        assert(r@ =~= custom_fields_text(fields@.take(i + 1)));
        i = i + 1;
    }
    assert(fields@.take(i as int) =~= fields@);
    r
}

/// The text a field of the edit form starts with for an item, if any: the
/// title, the matching part of the content, or the notes.
pub open spec fn prefill(item: Item, f: FormField) -> Option<Seq<char>> {
    match f {
        FormField::Title => Some(item.title@),
        FormField::Notes => opt_view(item.notes),
        _ => match item.content {
            ItemContent::Generic { value } => if f == FormField::Content { Some(value@) } else { None },
            ItemContent::CryptoSeed { seed_phrase, derivation_path, network } => if f == FormField::SeedPhrase {
                Some(seed_phrase@)
            } else if f == FormField::DerivationPath {
                opt_view(derivation_path)
            } else if f == FormField::Network {
                opt_view(network)
            } else {
                None
            },
            ItemContent::Password { username, password, url, .. } => if f == FormField::Username {
                opt_view(username)
            } else if f == FormField::Password {
                Some(password@)
            } else if f == FormField::Url {
                opt_view(url)
            } else {
                None
            },
            ItemContent::SecureNote { content } => if f == FormField::Content { Some(content@) } else { None },
            ItemContent::ApiKey { key, service, .. } => if f == FormField::ApiKey {
                Some(key@)
            } else if f == FormField::Service {
                opt_view(service)
            } else {
                None
            },
            ItemContent::Totp { .. } => None,
            ItemContent::Custom { fields } => if f == FormField::CustomFields {
                Some(custom_fields_text(fields@))
            } else {
                None
            },
        },
    }
}

/// The starting text of a form field for an item.
fn prefill_value(item: &Item, f: FormField) -> (r: Option<String>)
    ensures
        opt_view(r) == prefill(*item, f),
{
    match f {
        FormField::Title => Some(item.title.clone()),
        FormField::Notes => crate::domain::item::copy_opt(&item.notes),
        _ => match &item.content {
            ItemContent::Generic { value } => if f == FormField::Content { Some(value.clone()) } else { None },
            ItemContent::CryptoSeed { seed_phrase, derivation_path, network } => if f == FormField::SeedPhrase {
                Some(seed_phrase.clone())
            } else if f == FormField::DerivationPath {
                crate::domain::item::copy_opt(derivation_path)
            } else if f == FormField::Network {
                crate::domain::item::copy_opt(network)
            } else {
                None
            },
            ItemContent::Password { username, password, url, .. } => if f == FormField::Username {
                crate::domain::item::copy_opt(username)
            } else if f == FormField::Password {
                Some(password.clone())
            } else if f == FormField::Url {
                crate::domain::item::copy_opt(url)
            } else {
                None
            },
            ItemContent::SecureNote { content } => if f == FormField::Content { Some(content.clone()) } else { None },
            ItemContent::ApiKey { key, service, .. } => if f == FormField::ApiKey {
                Some(key.clone())
            } else if f == FormField::Service {
                crate::domain::item::copy_opt(service)
            } else {
                None
            },
            ItemContent::Totp { .. } => None,
            ItemContent::Custom { fields } => if f == FormField::CustomFields {
                Some(format_custom_fields_for_form(fields))
            } else {
                None
            },
        },
    }
}

impl FloatingWindow {
    /// An empty search dialog.
    pub fn new_search() -> (r: FloatingWindow)
        ensures
            r matches FloatingWindow::Search { state } && state.query@.len() == 0 && state.cursor == 0
                && state.results@.len() == 0 && state.selected == 0 && state.wf(),
    {
        FloatingWindow::Search { state: SearchState::new() }
    }

    /// The kind selector, on its first kind.
    pub fn new_kind_selector() -> (r: FloatingWindow)
        ensures
            r matches FloatingWindow::KindSelector { state } && state.kinds@ == offered_kinds() && state.selected == 0,
    {
        FloatingWindow::KindSelector { state: KindSelectorState::default() }
    }

    /// A blank form for a new item of `kind`.
    pub fn new_item_form(kind: ItemKind) -> (r: FloatingWindow)
        ensures
            r matches FloatingWindow::NewItem { form } && form.kind == kind && form.fields@ == fields_for(kind)
                && form.is_new && form.focused_field == 0 && form.cursor == 0 && form.wf()
                && forall|i: int| 0 <= i < form.values@.len() ==> (#[trigger] form.values@[i])@ == Seq::<char>::empty(),
    {
        FloatingWindow::NewItem { form: EditFormState::new(kind, true) }
    }

    /// The form editing `item`, filled with its title, content and notes.
    pub fn edit_item_form(item: &Item) -> (r: FloatingWindow)
        ensures
            r matches FloatingWindow::EditItem { item_id, form } && form.wf() && item_id == item.id && form.kind == item.kind
                && form.fields@ == fields_for(item.kind) && !form.is_new && form.focused_field == 0
                && form.cursor == 0 && form.values@.len() == form.fields@.len()
                && forall|i: int| 0 <= i < form.values@.len() ==> (#[trigger] form.values@[i])@ == (match prefill(
                    *item,
                    form.fields@[i],
                ) {
                    Some(t) => t,
                    None => Seq::<char>::empty(),
                }),
    {
        let mut form = EditFormState::new(item.kind, false);
        let n = form.fields.len();
        let mut i: usize = 0;
        while i < n
            invariant
                n == form.fields@.len(),
                form.kind == item.kind,
                form.fields@ == fields_for(item.kind),
                !form.is_new,
                form.focused_field == 0,
                form.cursor == 0,
                form.values@.len() == n,
                i <= n,
                forall|k: int| 0 <= k < i ==> (#[trigger] form.values@[k])@ == (match prefill(*item, form.fields@[k]) {
                    Some(t) => t,
                    None => Seq::<char>::empty(),
                }),
                forall|k: int| i <= k < n ==> (#[trigger] form.values@[k])@ == Seq::<char>::empty(),
                forall|k: int| 0 <= k < n ==> utf8_len((#[trigger] form.values@[k])@) <= usize::MAX,
            decreases n - i,
        {
            match prefill_value(item, form.fields[i]) {
                Some(v) => {
                    crate::cursor::utf8_fits(v.as_str());
                    form.values.set(i, v);
                },
                None => {},
            }
            i = i + 1;
        }
        proof {
            lemma_end_is_boundary(form.values@[0]@);
        }
        FloatingWindow::EditItem { item_id: item.id, form }
    }
}

/// Whether a notification still shows at `now`.
pub open spec fn unexpired(now: i64) -> spec_fn(Notification) -> bool {
    |n: Notification| n.expires_at > now
}

/// Frames of the loading spinner.
pub open spec fn spinner_frames() -> Seq<char> {
    seq!['\u{280b}', '\u{2819}', '\u{2839}', '\u{2838}', '\u{283c}', '\u{2834}', '\u{2826}', '\u{2827}', '\u{2807}', '\u{280f}']
}

/// Interface state that is not about the vault.
#[derive(Debug)]
pub struct UIState {
    /// The focused pane.
    pub focused_pane: Pane,
    /// Scroll offset of the item list.
    pub list_scroll_offset: usize,
    /// Scroll offset of the detail view.
    pub detail_scroll_offset: usize,
    /// The floating window, if one is open.
    pub floating_window: Option<FloatingWindow>,
    /// Notifications on screen.
    pub notifications: Vec<Notification>,
    /// Whether secrets are shown in the clear.
    pub content_revealed: bool,
    /// The input buffer of text fields outside forms.
    pub input_buffer: InputBuffer,
    /// Filters of the item list.
    pub filter: FilterState,
    /// Regions of the layout, for mouse clicks.
    pub layout_regions: LayoutRegions,
    /// What is being loaded, if anything.
    pub loading_message: Option<String>,
    /// Frame of the loading spinner.
    pub spinner_frame: u8,
}

impl Default for UIState {
    fn default() -> (r: UIState)
        ensures
            r.focused_pane == Pane::List,
            r.list_scroll_offset == 0,
            r.detail_scroll_offset == 0,
            r.floating_window is None,
            r.notifications@.len() == 0,
            !r.content_revealed,
            r.input_buffer.text@.len() == 0 && r.input_buffer.cursor == 0 && !r.input_buffer.masked,
            r.input_buffer.wf(),
            !r.filter.active(),
            r.loading_message is None,
            r.spinner_frame == 0,
            r.wf(),
    {
        UIState {
            focused_pane: Pane::List,
            list_scroll_offset: 0,
            detail_scroll_offset: 0,
            floating_window: None,
            notifications: Vec::new(),
            content_revealed: false,
            input_buffer: InputBuffer::new(),
            filter: FilterState::default(),
            layout_regions: LayoutRegions::new(),
            loading_message: None,
            spinner_frame: 0,
        }
    }
}

impl UIState {
    /// The spinner frame is one of the frames.
    pub open spec fn wf(&self) -> bool {
        self.spinner_frame < 10
    }

    /// Shows a notification for five seconds.
    pub fn notify(&mut self, message: &str, level: NotificationLevel)
        ensures
            final(self).notifications@.len() == old(self).notifications@.len() + 1,
            final(self).notifications@.take(old(self).notifications@.len() as int) == old(self).notifications@,
            final(self).notifications@.last().message@ == message@,
            final(self).notifications@.last().level == level,
            *final(self) == (UIState { notifications: final(self).notifications, ..*old(self) }),
    {
        let n = Notification::new(message, level);
        self.notifications.push(n);
        assert(self.notifications@.take(old(self).notifications@.len() as int) =~= old(self).notifications@);
    }

    /// Whether a floating window is open.
    pub fn has_floating_window(&self) -> (r: bool)
        ensures
            r == self.floating_window is Some,
    {
        self.floating_window.is_some()
    }

    /// Closes the floating window.
    pub fn close_floating_window(&mut self)
        ensures
            *final(self) == (UIState { floating_window: None, ..*old(self) }),
    {
        self.floating_window = None;
    }

    /// Forgets the regions of the last drawing.
    pub fn clear_layout_regions(&mut self)
        ensures
            final(self).layout_regions.regions@.len() == 0,
            final(self).layout_regions.clickable_elements@.len() == 0,
            final(self).layout_regions.last_click == old(self).layout_regions.last_click,
            *final(self) == (UIState { layout_regions: final(self).layout_regions, ..*old(self) }),
    {
        self.layout_regions.clear();
    }

    /// Records where the area `name` was drawn.
    pub fn register_region(&mut self, name: UiRegion, region: ClickRegion)
        ensures
            final(self).layout_regions.regions@ == old(self).layout_regions.regions@.filter(other_region(name)).push(
                (name, region),
            ),
            final(self).layout_regions.clickable_elements@ == old(self).layout_regions.clickable_elements@,
            *final(self) == (UIState { layout_regions: final(self).layout_regions, ..*old(self) }),
    {
        self.layout_regions.set(name, region);
    }

    /// Starts showing a loading message, with the spinner at its first frame.
    pub fn start_loading(&mut self, message: &str)
        ensures
            final(self).loading_message matches Some(m) && m@ == message@,
            final(self).spinner_frame == 0,
            *final(self) == (UIState { loading_message: final(self).loading_message, spinner_frame: 0, ..*old(self) }),
    {
        self.loading_message = Some(String::from_str(message));
        self.spinner_frame = 0;
    }

    /// Stops showing the loading message.
    pub fn stop_loading(&mut self)
        ensures
            *final(self) == (UIState { loading_message: None, ..*old(self) }),
    {
        self.loading_message = None;
    }

    /// Whether something is loading.
    pub fn is_loading(&self) -> (r: bool)
        ensures
            r == self.loading_message is Some,
    {
        self.loading_message.is_some()
    }

    /// Advances the spinner while loading, wrapping after its last frame.
    pub fn tick_spinner(&mut self)
        requires
            old(self).wf(),
        ensures
            final(self).wf(),
            final(self).spinner_frame == (if old(self).loading_message is Some {
                (old(self).spinner_frame + 1) % 10
            } else {
                old(self).spinner_frame as int
            }),
            *final(self) == (UIState { spinner_frame: final(self).spinner_frame, ..*old(self) }),
    {
        if self.is_loading() {
            self.spinner_frame = (self.spinner_frame + 1) % 10;
        }
    }

    /// The spinner's current frame.
    pub fn spinner_char(&self) -> (r: char)
        requires
            self.wf(),
        ensures
            r == spinner_frames()[self.spinner_frame as int],
    {
        let frames: [char; 10] = ['\u{280b}', '\u{2819}', '\u{2839}', '\u{2838}', '\u{283c}', '\u{2834}', '\u{2826}', '\u{2827}', '\u{2807}', '\u{280f}'];
        assert(frames@ =~= spinner_frames());
        frames[self.spinner_frame as usize]
    }

    /// Removes the notifications whose time is over.
    pub fn cleanup_notifications(&mut self)
        ensures
            exists|now: i64| final(self).notifications@ == old(self).notifications@.filter(unexpired(now)),
            *final(self) == (UIState { notifications: final(self).notifications, ..*old(self) }),
    {
        let now = now_millis();
        let ghost p = unexpired(now);
        let ghost old_n = self.notifications@;
        let mut i: usize = 0;
        let ghost mut j: int = 0;
        proof {
            crate::seqs::lemma_filter_empty(old_n, p);
            assert(old_n.skip(0) =~= old_n);
        }
        while i < self.notifications.len()
            invariant
                p == unexpired(now),
                0 <= j <= old_n.len(),
                i == old_n.take(j).filter(p).len(),
                self.notifications@ == old_n.take(j).filter(p) + old_n.skip(j),
                *self == (UIState { notifications: self.notifications, ..*old(self) }),
            decreases old_n.len() - j,
        {
            proof {
                crate::seqs::lemma_filter_take_step(old_n, j, p);
                assert(self.notifications@[i as int] == old_n[j]);
                assert(old_n.skip(j + 1) =~= old_n.skip(j).drop_first());
            }
            if self.notifications[i].expires_at > now {
                assert(self.notifications@ =~= old_n.take(j + 1).filter(p) + old_n.skip(j + 1));
                i = i + 1;
            } else {
                self.notifications.remove(i);
                assert(self.notifications@ =~= old_n.take(j + 1).filter(p) + old_n.skip(j + 1));
            }
            proof {
                j = j + 1;
            }
        }
        proof {
            assert(old_n.skip(j).len() == 0);
            crate::seqs::lemma_take_full(old_n);
            assert(self.notifications@ =~= old_n.filter(p));
        }
    }
}

/// The whole state of the application.
pub struct AppState {
    /// Mode.
    pub mode: AppMode,
    /// Screen on display.
    pub screen: Screen,
    /// The unlocked vault, if any.
    pub vault_state: Option<VaultState>,
    /// Interface state.
    pub ui_state: UIState,
    /// Clipboard tracking.
    pub clipboard_state: ClipboardState,
    /// The login screen.
    pub login_screen: LoginScreen,
    /// The settings screen.
    pub settings_state: SettingsScreen,
    /// The configuration.
    pub config: AppConfig,
    /// The known vaults.
    pub registry: VaultRegistry,
    /// Whether to lock right after the pending save succeeds.
    pub pending_lock: bool,
    /// Whether the application is to quit.
    pub should_quit: bool,
}

impl AppState {
    /// The state at start: locked, on the login screen, with the password
    /// input masked.
    pub fn new(config: AppConfig, registry: VaultRegistry) -> (r: AppState)
        ensures
            r.mode == AppMode::Locked,
            r.screen == Screen::Login,
            r.vault_state is None,
            r.ui_state.input_buffer.masked,
            r.ui_state.input_buffer.text@.len() == 0,
            r.ui_state.input_buffer.wf(),
            r.ui_state.floating_window is None,
            r.ui_state.wf(),
            !r.clipboard_state.has_secure_content,
            r.login_screen.selected_vault == 0,
            !r.login_screen.entering_password,
            !r.login_screen.creating_vault,
            r.settings_state.security_action is None,
            r.config == config,
            r.registry.entries@ == registry.entries@,
            !r.pending_lock,
            !r.should_quit,
            r.wf(),
    {
        let mut ui_state = UIState::default();
        ui_state.input_buffer.masked = true;
        AppState {
            mode: AppMode::Locked,
            screen: Screen::Login,
            vault_state: None,
            ui_state,
            clipboard_state: ClipboardState::default(),
            login_screen: LoginScreen::new(),
            settings_state: SettingsScreen::new(),
            config,
            registry,
            pending_lock: false,
            should_quit: false,
        }
    }

    /// Whether a vault is unlocked.
    pub fn is_unlocked(&self) -> (r: bool)
        ensures
            r == (self.vault_state is Some && self.mode == AppMode::Unlocked),
    {
        self.vault_state.is_some() && self.mode == AppMode::Unlocked
    }

    /// The unlocked vault, if any.
    pub fn vault(&self) -> (r: Option<&Vault>)
        ensures
            match self.vault_state {
                Some(vs) => r == Some(&vs.vault),
                None => r is None,
            },
    {
        match &self.vault_state {
            Some(vs) => Some(&vs.vault),
            None => None,
        }
    }

    /// The unlocked vault, to change, if any.
    pub fn vault_mut(&mut self) -> (r: Option<&mut Vault>)
        ensures
            match old(self).vault_state {
                Some(vs) => r matches Some(v) && *v == vs.vault && (final(self).vault_state matches Some(fvs)
                    && fvs == (VaultState { vault: *final(v), ..vs })),
                None => r is None,
            },
    {
        match &mut self.vault_state {
            Some(vs) => Some(&mut vs.vault),
            None => None,
        }
    }

    /// The selected item of the unlocked vault, if any.
    pub open spec fn selected_item_spec(&self) -> Option<Item> {
        match self.vault_state {
            Some(vs) => match vs.selected_item_id {
                Some(id) => match item_position(vs.vault.items@, id) {
                    Some(p) => Some(vs.vault.items@[p]),
                    None => None,
                },
                None => None,
            },
            None => None,
        }
    }

    /// The selected item of the unlocked vault, if any.
    pub fn selected_item(&self) -> (r: Option<&Item>)
        ensures
            match self.vault_state {
                Some(vs) => match vs.selected_item_id {
                    Some(id) => match item_position(vs.vault.items@, id) {
                        Some(p) => r == Some(&vs.vault.items@[p]),
                        None => r is None,
                    },
                    None => r is None,
                },
                None => r is None,
            },
            match r {
                Some(i) => self.selected_item_spec() == Some(*i),
                None => self.selected_item_spec() is None,
            },
    {
        match &self.vault_state {
            Some(vs) => match vs.selected_item_id {
                Some(id) => vs.vault.get_item(id),
                None => None,
            },
            None => None,
        }
    }

    /// Whether the unlocked vault has unsaved changes.
    pub open spec fn is_dirty_spec(&self) -> bool {
        match self.vault_state {
            Some(vs) => vs.is_dirty,
            None => false,
        }
    }

    /// Whether the unlocked vault has unsaved changes.
    pub fn is_dirty(&self) -> (r: bool)
        ensures
            r == self.is_dirty_spec(),
    {
        match &self.vault_state {
            Some(vs) => vs.is_dirty,
            None => false,
        }
    }
}

/// The floating window, if any, is in a state its operations accept.
pub open spec fn window_ok(w: Option<FloatingWindow>) -> bool {
    match w {
        Some(FloatingWindow::Search { state }) => state.wf(),
        Some(FloatingWindow::KindSelector { state }) => state.wf(),
        Some(FloatingWindow::NewItem { form }) => form.wf(),
        Some(FloatingWindow::EditItem { form, .. }) => form.wf(),
        _ => true,
    }
}

/// Every input buffer of the create-vault form is well formed.
pub open spec fn create_form_ok(f: crate::ui::screens::login::CreateVaultFormState) -> bool {
    &&& f.recovery_questions_count <= 3
    &&& f.name.wf()
    &&& f.password.wf()
    &&& f.confirm_password.wf()
    &&& f.use_keyfile.wf()
    &&& f.keyfile_path.wf()
    &&& f.question1.wf()
    &&& f.answer1.wf()
    &&& f.question2.wf()
    &&& f.answer2.wf()
    &&& f.question3.wf()
    &&& f.answer3.wf()
}

impl AppState {
    /// Every part of the state is in a form its operations accept.
    pub open spec fn wf(&self) -> bool {
        &&& self.ui_state.wf()
        &&& self.login_screen.selected_vault < usize::MAX
        &&& self.ui_state.input_buffer.wf()
        &&& window_ok(self.ui_state.floating_window)
        &&& create_form_ok(self.login_screen.create_vault_form)
        &&& (self.login_screen.password_recovery matches Some(r) ==> r.wf())
    }
}

} // verus!
