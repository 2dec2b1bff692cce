//! Messages: the events and requests that drive the application, and the
//! values they carry.
use vstd::prelude::*;

use crate::app::effect::EffectResult;
use crate::app::state::{FloatingWindow, NotificationLevel, Pane, Screen};
use crate::crypto::secure_string::SecureString;
use crate::domain::item::{ItemContent, ItemKind};
use crate::domain::tag::Tag;
use crate::storage::config::ThemeChoice;

verus! {

/// Everything that can happen in the application.
pub enum Message {
    /// Shows a screen.
    Navigate(Screen),
    /// Focuses a pane.
    FocusPane(Pane),
    /// Unlocks the selected vault with a password and, maybe, a key file.
    UnlockVault { password: SecureString, keyfile: Option<String> },
    /// Locks the vault (after saving unsaved changes).
    LockVault,
    /// Saves the vault.
    SaveVault,
    /// Closes the vault and goes back to the login screen.
    CloseVault,
    /// Opens the create-vault form.
    StartCreateVault,
    /// Starts entering the password of the selected vault.
    EnterPasswordMode,
    /// Starts the forgot-password flow for the selected vault.
    StartPasswordRecovery,
    /// Goes back a step in the create-vault form.
    LoginPrevStep,
    /// Cancels the current input.
    CancelInput,
    /// Asks to remove the selected vault from the list.
    DeleteSelectedVault,
    /// Removes the vault at an index from the list.
    ConfirmDeleteVault(usize),
    /// Selects the next vault.
    LoginSelectNext,
    /// Selects the previous vault.
    LoginSelectPrev,
    /// Selects the vault at an index.
    LoginSelectVault(usize),
    /// Selects an item.
    SelectItem(u128),
    /// Selects the next shown item.
    SelectNextItem,
    /// Selects the previous shown item.
    SelectPrevItem,
    /// Creates an item of a kind.
    CreateItem { kind: ItemKind },
    /// Changes an item.
    UpdateItem { id: u128, updates: ItemUpdates },
    /// Asks to delete an item.
    DeleteItem(u128),
    /// Deletes an item.
    ConfirmDeleteItem(u128),
    /// Flips the favorite flag of an item.
    ToggleFavorite(u128),
    /// Copies an item.
    DuplicateItem(u128),
    /// Undoes the last change.
    Undo,
    /// Redoes the last undone change.
    Redo,
    /// Opens the search dialog.
    OpenSearch,
    /// Closes the search dialog.
    CloseSearch,
    /// Replaces the search query.
    UpdateSearchQuery(String),
    /// Runs the search again.
    ExecuteSearch,
    /// Picks the search result at an index.
    SelectSearchResult(usize),
    /// Highlights the next search result.
    SearchNextResult,
    /// Highlights the previous search result.
    SearchPrevResult,
    /// Picks the highlighted search result.
    SearchConfirm,
    /// Copies text to the clipboard.
    CopyToClipboard { content: String, is_sensitive: bool },
    /// Copies the main secret of the selected item.
    CopyCurrentItem,
    /// Copies a field of the detail view.
    CopyField(usize),
    /// Edits a field of the detail view.
    EditField(usize),
    /// Empties the clipboard.
    ClearClipboard,
    /// Shows or hides secrets.
    ToggleContentReveal,
    /// Opens a floating window.
    OpenFloatingWindow(FloatingWindow),
    /// Closes the floating window.
    CloseFloatingWindow,
    /// Shows a notification.
    ShowNotification { message: String, level: NotificationLevel },
    /// Removes a notification.
    DismissNotification(u128),
    /// Scrolls the focused pane.
    Scroll(ScrollDirection),
    /// Types a char.
    InputChar(char),
    /// Deletes the char before the cursor.
    InputBackspace,
    /// Deletes the char at the cursor.
    InputDelete,
    /// Moves the cursor left.
    InputLeft,
    /// Moves the cursor right.
    InputRight,
    /// Moves up in the input.
    InputUp,
    /// Moves down in the input.
    InputDown,
    /// Moves the cursor to the start.
    InputHome,
    /// Moves the cursor to the end.
    InputEnd,
    /// Submits the input.
    InputSubmit,
    /// Cancels the input.
    InputCancel,
    /// Focuses the next form field.
    FormNextField,
    /// Focuses the previous form field.
    FormPrevField,
    /// Focuses the form field at an index.
    FormFocusField(usize),
    /// Focuses the notes of the detail view.
    FocusDetailNotes,
    /// Edits the notes of the selected item.
    EditNotes,
    /// Submits the form.
    FormSubmit,
    /// Highlights the next kind.
    KindSelectorNext,
    /// Highlights the previous kind.
    KindSelectorPrev,
    /// Highlights the kind at an index.
    KindSelectorSelect(usize),
    /// Picks the highlighted kind.
    KindSelectorConfirm,
    /// Creates a tag.
    CreateTag(Tag),
    /// Deletes a tag.
    DeleteTag(u128),
    /// Adds or removes a tag of an item.
    ToggleItemTag { item_id: u128, tag_id: u128 },
    /// Filters by a kind, or not.
    SetKindFilter(Option<ItemKind>),
    /// Adds or removes a tag filter.
    ToggleTagFilter(u128),
    /// Shows only favorites, or everything.
    ToggleFavoritesFilter,
    /// Removes every filter.
    ClearFilters,
    /// Filters by the next category.
    NextCategory,
    /// Filters by the previous category.
    PrevCategory,
    /// Changes the configuration.
    UpdateConfig(ConfigUpdate),
    /// Sets up security questions.
    SetupSecurityQuestions(Vec<SecurityQuestionInput>),
    /// Answers a security question.
    AttemptRecovery { question_index: usize, answer: SecureString },
    /// Exports the vault.
    ExportVault { format: ExportFormat, path: String },
    /// The clock ticked.
    Tick,
    /// Quits, unless there are unsaved changes.
    Quit,
    /// Quits at once.
    ForceQuit,
    /// Nothing.
    Noop,
    /// Outside work finished.
    AsyncEffectCompleted(Box<EffectResult>),
}

/// Changes to apply to an item; `None` leaves a field as it is.
#[derive(Debug, Clone)]
pub struct ItemUpdates {
    /// New title.
    pub title: Option<String>,
    /// New content.
    pub content: Option<ItemContent>,
    /// New notes: `Some(None)` clears them, `Some(Some(x))` sets them.
    pub notes: Option<Option<String>>,
    /// New tag list.
    pub tags: Option<Vec<u128>>,
    /// New favorite flag.
    pub favorite: Option<bool>,
}

impl Default for ItemUpdates {
    fn default() -> (r: ItemUpdates)
        ensures
            r.empty(),
    {
        ItemUpdates { title: None, content: None, notes: None, tags: None, favorite: None }
    }
}

impl ItemUpdates {
    /// No field is to change.
    pub open spec fn empty(&self) -> bool {
        self.title is None && self.content is None && self.notes is None && self.tags is None
            && self.favorite is None
    }

    /// Changes nothing.
    pub fn new() -> (r: ItemUpdates)
        ensures
            r.empty(),
    {
        ItemUpdates::default()
    }

    /// Also sets the title.
    pub fn title(self, title: String) -> (r: ItemUpdates)
        ensures
            r == (ItemUpdates { title: Some(title), ..self }),
    {
        ItemUpdates { title: Some(title), ..self }
    }

    /// Also sets the content.
    pub fn content(self, content: ItemContent) -> (r: ItemUpdates)
        ensures
            r == (ItemUpdates { content: Some(content), ..self }),
    {
        ItemUpdates { content: Some(content), ..self }
    }

    /// Also sets (or, with `None`, clears) the notes.
    pub fn notes(self, notes: Option<String>) -> (r: ItemUpdates)
        ensures
            r == (ItemUpdates { notes: Some(notes), ..self }),
    {
        ItemUpdates { notes: Some(notes), ..self }
    }

    /// Also sets the tags.
    pub fn tags(self, tags: Vec<u128>) -> (r: ItemUpdates)
        ensures
            r == (ItemUpdates { tags: Some(tags), ..self }),
    {
        ItemUpdates { tags: Some(tags), ..self }
    }

    /// Also sets the favorite flag.
    pub fn favorite(self, favorite: bool) -> (r: ItemUpdates)
        ensures
            r == (ItemUpdates { favorite: Some(favorite), ..self }),
    {
        ItemUpdates { favorite: Some(favorite), ..self }
    }

    /// Whether no field is to change.
    pub fn is_empty(&self) -> (r: bool)
        ensures
            r == self.empty(),
    {
        self.title.is_none() && self.content.is_none() && self.notes.is_none()
            && self.tags.is_none() && self.favorite.is_none()
    }
}

/// A scroll request.
#[derive(Debug, Clone, Copy, PartialEq, Eq, Structural)]
pub enum ScrollDirection {
    Up,
    Down,
    PageUp,
    PageDown,
    Top,
    Bottom,
}

/// A change of the configuration.
#[derive(Debug, Clone, Copy, PartialEq, Eq, Structural)]
pub enum ConfigUpdate {
    /// Sets the theme.
    SetTheme(ThemeChoice),
    /// Turns auto-lock on or off.
    SetAutoLock(bool),
    /// Sets the auto-lock timeout, in seconds.
    SetAutoLockTimeout(u64),
    /// Sets the clipboard timeout, in seconds.
    SetClipboardTimeout(u64),
    /// Turns icons on or off.
    SetShowIcons(bool),
}

/// Format of an export.
#[derive(Debug, Clone, Copy, PartialEq, Eq, Structural)]
pub enum ExportFormat {
    /// Plain JSON.
    Json,
    /// Encrypted JSON.
    EncryptedJson,
}

/// A security question and its answer, as typed during setup.
#[derive(Clone)]
pub struct SecurityQuestionInput {
    /// The question.
    pub question: String,
    /// The answer, which is hashed before it is stored.
    pub answer: SecureString,
}

} // verus!
