//! Routing input events to messages, depending on what the application is
//! showing: the login screen and its modes, the main screen through the
//! keybindings, the settings, floating windows, and mouse clicks.
use vstd::prelude::*;

use crate::app::message::{ExportFormat, Message, ScrollDirection};
use crate::app::state::{AppState, FloatingWindow, Pane, Screen};
use crate::input::keybindings::{CONTROL_BIT, KeyAction, KeyCode, KeyEvent, KeyModifiers, KeybindingConfig};
use crate::input::mouse::{ClickableElement, MouseButton, MouseEvent, MouseEventKind, UiRegion};
use crate::ui::screens::login::CreateVaultStep;

verus! {

/// An input event of the terminal.
pub enum Event {
    /// A key press.
    Key(KeyEvent),
    /// A mouse event.
    Mouse(MouseEvent),
    /// The terminal was resized.
    Resize(u16, u16),
    /// Anything else (focus changes, pastes).
    Other,
}

/// Whether control is held.
pub open spec fn ctrl_held(e: KeyEvent) -> bool {
    e.modifiers.has(KeyModifiers { bits: CONTROL_BIT })
}

/// Whether control is held.
fn with_ctrl(e: &KeyEvent) -> (r: bool)
    ensures
        r == ctrl_held(*e),
{
    e.modifiers.contains(KeyModifiers::control())
}

/// The message of an event.
pub fn route_event(state: &mut AppState, event: Event, keybindings: &KeybindingConfig) -> (r: Message)
    requires
        old(state).wf(),
    ensures
        final(state).wf(),
        final(state).vault_state == old(state).vault_state,
        final(state).screen == old(state).screen,
        crate::app::update::message_ok(&r),
        match event {
            Event::Key(k) => key_result(*old(state), k, keybindings@, r) && *final(state) == *old(state),
            Event::Mouse(m) => !old(state).config.mouse_enabled ==> r is Noop,
            _ => r is Noop && *final(state) == *old(state),
        },
{
    match event {
        Event::Key(key) => route_key_event(state, key, keybindings),
        Event::Mouse(mouse) => route_mouse_event(state, mouse),
        Event::Resize(_, _) => Message::Noop,
        Event::Other => Message::Noop,
    }
}

/// Keys of the confirmation to remove a vault from the list.
fn route_confirm_delete_vault_key(event: KeyEvent, index: usize) -> (r: Message)
    ensures
        crate::app::update::message_ok(&r),
        r == (match event.code {
            KeyCode::Char('y') | KeyCode::Char('Y') | KeyCode::Enter => Message::ConfirmDeleteVault(index),
            KeyCode::Char('n') | KeyCode::Char('N') | KeyCode::Esc => Message::CloseFloatingWindow,
            _ => Message::Noop,
        }),
{
    match event.code {
        KeyCode::Char('y') | KeyCode::Char('Y') | KeyCode::Enter => Message::ConfirmDeleteVault(index),
        KeyCode::Char('n') | KeyCode::Char('N') | KeyCode::Esc => Message::CloseFloatingWindow,
        _ => Message::Noop,
    }
}

/// The message of a key: the floating window takes it first, then the
/// screen.
pub fn route_key_event(state: &AppState, event: KeyEvent, keybindings: &KeybindingConfig) -> (r: Message)
    ensures
        key_result(*state, event, keybindings@, r),
        crate::app::update::message_ok(&r),
{
    match &state.ui_state.floating_window {
        Some(window) => {
            return route_floating_window_key(event, window);
        },
        None => {},
    }
    match state.screen {
        Screen::Login => route_login_key(state, event),
        Screen::PasswordRecovery => route_password_recovery_key(event),
        Screen::Main => route_main_key(state, event, keybindings),
        Screen::Settings => route_settings_key(state, event),
        _ => Message::Noop,
    }
}

/// The editing message of a key in a text input: a char typed (without
/// control), or a deletion or cursor move.
pub open spec fn text_input_message(e: KeyEvent) -> Option<Message> {
    match e.code {
        KeyCode::Char(c) => if !ctrl_held(e) { Some(Message::InputChar(c)) } else { None },
        KeyCode::Backspace => Some(Message::InputBackspace),
        KeyCode::Delete => Some(Message::InputDelete),
        KeyCode::Left => Some(Message::InputLeft),
        KeyCode::Right => Some(Message::InputRight),
        KeyCode::Home => Some(Message::InputHome),
        KeyCode::End => Some(Message::InputEnd),
        _ => None,
    }
}

/// A text input's message, or the one for Enter and Esc.
pub open spec fn text_or(e: KeyEvent, enter: Message, esc: Message) -> Message {
    match text_input_message(e) {
        Some(m) => m,
        None => if e.code == KeyCode::Enter {
            enter
        } else if e.code == KeyCode::Esc {
            esc
        } else {
            Message::Noop
        },
    }
}

/// Whether the key is Ctrl+Q or Ctrl+C.
pub open spec fn force_quit_key(e: KeyEvent) -> bool {
    ctrl_held(e) && (e.code == KeyCode::Char('q') || e.code == KeyCode::Char('c'))
}

/// The message of a key in the search dialog.
pub open spec fn search_key_message(e: KeyEvent) -> Message {
    match text_input_message(e) {
        Some(m) => m,
        None => match e.code {
            KeyCode::Enter => Message::SearchConfirm,
            KeyCode::Esc => Message::CloseSearch,
            KeyCode::Down | KeyCode::Tab => Message::SearchNextResult,
            KeyCode::Up | KeyCode::BackTab => Message::SearchPrevResult,
            KeyCode::Char('n') => Message::SearchNextResult,
            KeyCode::Char('p') => Message::SearchPrevResult,
            _ => Message::Noop,
        },
    }
}

/// The message of a key in a floating window.
pub open spec fn window_key_message(e: KeyEvent, w: FloatingWindow) -> Message {
    match w {
        FloatingWindow::Search { .. } => search_key_message(e),
        FloatingWindow::ConfirmDelete { item_id } => match e.code {
            KeyCode::Char('y') | KeyCode::Char('Y') | KeyCode::Enter => Message::ConfirmDeleteItem(item_id),
            KeyCode::Char('n') | KeyCode::Char('N') | KeyCode::Esc => Message::CloseFloatingWindow,
            _ => Message::Noop,
        },
        FloatingWindow::ConfirmDeleteVault { index, .. } => match e.code {
            KeyCode::Char('y') | KeyCode::Char('Y') | KeyCode::Enter => Message::ConfirmDeleteVault(index),
            KeyCode::Char('n') | KeyCode::Char('N') | KeyCode::Esc => Message::CloseFloatingWindow,
            _ => Message::Noop,
        },
        FloatingWindow::Help => match e.code {
            KeyCode::Esc | KeyCode::Char('q') | KeyCode::Char('?') | KeyCode::Enter => Message::CloseFloatingWindow,
            _ => Message::Noop,
        },
        FloatingWindow::KindSelector { .. } => match e.code {
            KeyCode::Down | KeyCode::Char('j') => Message::KindSelectorNext,
            KeyCode::Up | KeyCode::Char('k') => Message::KindSelectorPrev,
            KeyCode::Enter => Message::KindSelectorConfirm,
            KeyCode::Esc => Message::CloseFloatingWindow,
            _ => Message::Noop,
        },
        FloatingWindow::NewItem { .. } | FloatingWindow::EditItem { .. } => match text_input_message(e) {
            Some(m) => m,
            None => match e.code {
                KeyCode::Enter => Message::FormSubmit,
                KeyCode::Esc => Message::InputCancel,
                KeyCode::Tab | KeyCode::Down => Message::FormNextField,
                KeyCode::BackTab | KeyCode::Up => Message::FormPrevField,
                _ => Message::Noop,
            },
        },
        FloatingWindow::TagFilter => match e.code {
            KeyCode::Esc => Message::CloseFloatingWindow,
            KeyCode::Down | KeyCode::Char('j') => Message::SelectNextItem,
            KeyCode::Up | KeyCode::Char('k') => Message::SelectPrevItem,
            KeyCode::Enter | KeyCode::Char(' ') => Message::InputSubmit,
            _ => Message::Noop,
        },
    }
}

/// The message of a key on the settings screen.
pub open spec fn settings_key_message(state: AppState, e: KeyEvent) -> Message {
    if state.settings_state.security_action is Some {
        text_or(e, Message::InputSubmit, Message::CancelInput)
    } else {
        match e.code {
            KeyCode::Esc | KeyCode::Char('q') => Message::Navigate(Screen::Main),
            KeyCode::Down | KeyCode::Char('j') => Message::SelectNextItem,
            KeyCode::Up | KeyCode::Char('k') => Message::SelectPrevItem,
            KeyCode::Enter | KeyCode::Char(' ') => Message::InputSubmit,
            _ => Message::Noop,
        }
    }
}

/// The message of a key in the forgot-password flow.
pub open spec fn recovery_key_message(e: KeyEvent) -> Message {
    if force_quit_key(e) {
        Message::ForceQuit
    } else {
        text_or(e, Message::InputSubmit, Message::CancelInput)
    }
}

/// The message of a key on the login screen: in the create-vault form, in
/// the key-file or password input, or on the list of vaults.
pub open spec fn login_key_message(state: AppState, e: KeyEvent) -> Message {
    let login = state.login_screen;
    if login.creating_vault {
        match e.code {
            KeyCode::Char(c) => if !ctrl_held(e) {
                Message::InputChar(c)
            } else if force_quit_key(e) {
                Message::ForceQuit
            } else {
                Message::Noop
            },
            KeyCode::Backspace => Message::InputBackspace,
            KeyCode::Delete => Message::InputDelete,
            KeyCode::Left => Message::InputLeft,
            KeyCode::Right => Message::InputRight,
            KeyCode::Home => Message::InputHome,
            KeyCode::End => Message::InputEnd,
            KeyCode::Tab | KeyCode::Down => Message::FormNextField,
            KeyCode::BackTab | KeyCode::Up => Message::FormPrevField,
            KeyCode::Enter => Message::InputSubmit,
            KeyCode::Esc => if login.create_vault_form.step != CreateVaultStep::Step1 {
                Message::LoginPrevStep
            } else {
                Message::CancelInput
            },
            _ => Message::Noop,
        }
    } else if login.entering_keyfile_path || login.entering_password {
        if force_quit_key(e) {
            Message::ForceQuit
        } else if login.entering_password && !login.entering_keyfile_path && e.code == KeyCode::Char('f') {
            Message::StartPasswordRecovery
        } else {
            text_or(e, Message::InputSubmit, Message::CancelInput)
        }
    } else if force_quit_key(e) {
        Message::ForceQuit
    } else {
        match e.code {
            KeyCode::Char('n') | KeyCode::Char('i') => Message::StartCreateVault,
            KeyCode::Char('d') => Message::DeleteSelectedVault,
            KeyCode::Char('q') => Message::Quit,
            KeyCode::Tab | KeyCode::Char('j') | KeyCode::Down => Message::LoginSelectNext,
            KeyCode::BackTab | KeyCode::Char('k') | KeyCode::Up => Message::LoginSelectPrev,
            KeyCode::Enter => if state.registry.entries@.len() > 0 { Message::EnterPasswordMode } else { Message::Noop },
            _ => Message::Noop,
        }
    }
}

/// Whether `r` is the message of `action` on the main screen: the table of
/// `action_message`, and for the actions that build a value, the item form
/// of the selected item (or a copy or edit of its first field in the detail
/// pane), the kind selector, or the encrypted export.
pub open spec fn action_result(state: AppState, action: KeyAction, r: Message) -> bool {
    if action == KeyAction::Select || action == KeyAction::EditItem {
        match state.selected_item_spec() {
            Some(item) => if state.ui_state.focused_pane == Pane::Detail {
                r == (if action == KeyAction::Select { Message::CopyField(0) } else { Message::EditField(0) })
            } else {
                r matches Message::OpenFloatingWindow(FloatingWindow::EditItem { item_id, .. }) && item_id == item.id
            },
            None => r is Noop,
        }
    } else if action == KeyAction::NewItem {
        r matches Message::OpenFloatingWindow(FloatingWindow::KindSelector { state: k }) && k.selected == 0
    } else if action == KeyAction::Export {
        r matches Message::ExportVault { format, path } && format == ExportFormat::EncryptedJson && path@
            == "vault_export.vault"@
    } else {
        r == action_message(state, action)
    }
}

/// Whether `r` is the message of a key on the main screen: a bound key
/// through its action; an unbound char or backspace edits the query in the
/// search pane.
pub open spec fn main_key_result(state: AppState, e: KeyEvent, bindings: Seq<(crate::input::keybindings::KeyCombo, KeyAction)>, r: Message) -> bool {
    match crate::input::keybindings::bound_action(
        bindings,
        crate::input::keybindings::KeyCombo { code: e.code, modifiers: e.modifiers },
    ) {
        Some(a) => action_result(state, a, r),
        None => r == (if state.ui_state.focused_pane == Pane::Search {
            match e.code {
                KeyCode::Char(c) => Message::InputChar(c),
                KeyCode::Backspace => Message::InputBackspace,
                _ => Message::Noop,
            }
        } else {
            Message::Noop
        }),
    }
}

/// On the main screen, a key bound to undo asks to undo the last change and
/// a key bound to redo asks to redo it, whatever the state; saving, locking,
/// quitting, searching, revealing and opening the settings go likewise to
/// their own messages.
pub proof fn lemma_main_key_actions(
    state: AppState,
    e: KeyEvent,
    bindings: Seq<(crate::input::keybindings::KeyCombo, KeyAction)>,
    r: Message,
)
    requires
        main_key_result(state, e, bindings, r),
    ensures
        ({
            let a = crate::input::keybindings::bound_action(
                bindings,
                crate::input::keybindings::KeyCombo { code: e.code, modifiers: e.modifiers },
            );
            &&& a == Some(KeyAction::Undo) ==> r == Message::Undo
            &&& a == Some(KeyAction::Redo) ==> r == Message::Redo
            &&& a == Some(KeyAction::Save) ==> r == Message::SaveVault
            &&& a == Some(KeyAction::Lock) ==> r == Message::LockVault
            &&& a == Some(KeyAction::Quit) ==> r == Message::Quit
            &&& a == Some(KeyAction::ForceQuit) ==> r == Message::ForceQuit
            &&& a == Some(KeyAction::Search) ==> r == Message::OpenSearch
            &&& a == Some(KeyAction::ToggleReveal) ==> r == Message::ToggleContentReveal
            &&& a == Some(KeyAction::Settings) ==> r == Message::Navigate(Screen::Settings)
        }),
{
}

/// Undo and redo are told apart: the two actions never give the same
/// message, and neither gives the other's.
pub proof fn lemma_undo_redo_distinct(state: AppState, r_undo: Message, r_redo: Message)
    requires
        action_result(state, KeyAction::Undo, r_undo),
        action_result(state, KeyAction::Redo, r_redo),
    ensures
        r_undo is Undo,
        r_redo is Redo,
{
}

/// With the default bindings, on the main screen with no floating window,
/// `u` asks to undo the last change and Ctrl+R to redo it, whichever pane
/// has the focus.
pub proof fn lemma_default_undo_redo_keys(state: AppState, e: KeyEvent, r: Message)
    requires
        state.screen == Screen::Main,
        state.ui_state.floating_window is None,
        key_result(state, e, crate::input::keybindings::default_bindings(), r),
    ensures
        e.code == KeyCode::Char('u') && e.modifiers.bits == 0 ==> r == Message::Undo,
        e.code == KeyCode::Char('r') && e.modifiers.bits == CONTROL_BIT ==> r == Message::Redo,
{
    reveal_with_fuel(crate::input::keybindings::bound_action, 8);
    let d = crate::input::keybindings::default_bindings();
    let c = crate::input::keybindings::KeyCombo { code: e.code, modifiers: e.modifiers };
    if e.code == KeyCode::Char('u') && e.modifiers.bits == 0 {
        assert(crate::input::keybindings::bound_action(d, c) == Some(KeyAction::Undo));
    }
    if e.code == KeyCode::Char('r') && e.modifiers.bits == CONTROL_BIT {
        assert(crate::input::keybindings::bound_action(d, c) == Some(KeyAction::Redo));
    }
}

/// Whether `r` is the message of a key: the floating window takes it first,
/// then the screen.
pub open spec fn key_result(state: AppState, e: KeyEvent, bindings: Seq<(crate::input::keybindings::KeyCombo, KeyAction)>, r: Message) -> bool {
    match state.ui_state.floating_window {
        Some(w) => r == window_key_message(e, w),
        None => match state.screen {
            Screen::Login => r == login_key_message(state, e),
            Screen::PasswordRecovery => r == recovery_key_message(e),
            Screen::Main => main_key_result(state, e, bindings, r),
            Screen::Settings => r == settings_key_message(state, e),
            _ => r is Noop,
        },
    }
}


/// The editing keys of a text input (chars without control, deletion,
/// cursor moves), or `None` for other keys.
fn text_input_key(event: &KeyEvent) -> (r: Option<Message>)
    ensures
        r == text_input_message(*event),
{
    match event.code {
        KeyCode::Char(c) => {
            if !with_ctrl(event) {
                Some(Message::InputChar(c))
            } else {
                None
            }
        },
        KeyCode::Backspace => Some(Message::InputBackspace),
        KeyCode::Delete => Some(Message::InputDelete),
        KeyCode::Left => Some(Message::InputLeft),
        KeyCode::Right => Some(Message::InputRight),
        KeyCode::Home => Some(Message::InputHome),
        KeyCode::End => Some(Message::InputEnd),
        _ => None,
    }
}

/// Whether the key is Ctrl+Q or Ctrl+C.
fn is_force_quit(event: &KeyEvent) -> (r: bool)
    ensures
        r == (ctrl_held(*event) && (event.code == KeyCode::Char('q') || event.code == KeyCode::Char('c'))),
{
    with_ctrl(event) && (event.code == KeyCode::Char('q') || event.code == KeyCode::Char('c'))
}

/// Keys of the login screen: the create-vault form, the key file path, the
/// password, or the vault list.
fn route_login_key(state: &AppState, event: KeyEvent) -> (r: Message)
    ensures
        r == login_key_message(*state, event),
        crate::app::update::message_ok(&r),
{
    let login = &state.login_screen;
    if login.creating_vault {
        match event.code {
            KeyCode::Char(c) => {
                if !with_ctrl(&event) {
                    return Message::InputChar(c);
                }
            },
            KeyCode::Backspace => {
                return Message::InputBackspace;
            },
            KeyCode::Delete => {
                return Message::InputDelete;
            },
            KeyCode::Left => {
                return Message::InputLeft;
            },
            KeyCode::Right => {
                return Message::InputRight;
            },
            KeyCode::Home => {
                return Message::InputHome;
            },
            KeyCode::End => {
                return Message::InputEnd;
            },
            KeyCode::Tab | KeyCode::Down => {
                return Message::FormNextField;
            },
            KeyCode::BackTab | KeyCode::Up => {
                return Message::FormPrevField;
            },
            KeyCode::Enter => {
                return Message::InputSubmit;
            },
            KeyCode::Esc => {
                return if login.create_vault_form.step != CreateVaultStep::Step1 {
                    Message::LoginPrevStep
                } else {
                    Message::CancelInput
                };
            },
            _ => {},
        }
        if is_force_quit(&event) {
            return Message::ForceQuit;
        }
        return Message::Noop;
    }
    if login.entering_keyfile_path || login.entering_password {
        if is_force_quit(&event) {
            return Message::ForceQuit;
        }
        if login.entering_password && !login.entering_keyfile_path && event.code == KeyCode::Char('f') {
            return Message::StartPasswordRecovery;
        }
        match text_input_key(&event) {
            Some(m) => {
                return m;
            },
            None => {},
        }
        return match event.code {
            KeyCode::Enter => Message::InputSubmit,
            KeyCode::Esc => Message::CancelInput,
            _ => Message::Noop,
        };
    }
    if is_force_quit(&event) {
        return Message::ForceQuit;
    }
    match event.code {
        KeyCode::Char('n') | KeyCode::Char('i') => Message::StartCreateVault,
        KeyCode::Char('d') => Message::DeleteSelectedVault,
        KeyCode::Char('q') => Message::Quit,
        KeyCode::Tab | KeyCode::Char('j') | KeyCode::Down => Message::LoginSelectNext,
        KeyCode::BackTab | KeyCode::Char('k') | KeyCode::Up => Message::LoginSelectPrev,
        KeyCode::Enter => {
            if state.registry.entries.len() > 0 {
                Message::EnterPasswordMode
            } else {
                Message::Noop
            }
        },
        _ => Message::Noop,
    }
}

/// Keys of the forgot-password flow.
fn route_password_recovery_key(event: KeyEvent) -> (r: Message)
    ensures
        crate::app::update::message_ok(&r),
        r == recovery_key_message(event),
{
    if is_force_quit(&event) {
        return Message::ForceQuit;
    }
    match text_input_key(&event) {
        Some(m) => m,
        None => match event.code {
            KeyCode::Enter => Message::InputSubmit,
            KeyCode::Esc => Message::CancelInput,
            _ => Message::Noop,
        },
    }
}

/// Keys of the main screen: bound keys through their action; in the search
/// pane, chars and backspace edit the query.
fn route_main_key(state: &AppState, event: KeyEvent, keybindings: &KeybindingConfig) -> (r: Message)
    ensures
        crate::app::update::message_ok(&r),
        main_key_result(*state, event, keybindings@, r),
{
    match keybindings.get_action(event) {
        Some(action) => action_to_message(state, action),
        None => match state.ui_state.focused_pane {
            Pane::Search => match event.code {
                KeyCode::Char(c) => Message::InputChar(c),
                KeyCode::Backspace => Message::InputBackspace,
                _ => Message::Noop,
            },
            _ => Message::Noop,
        },
    }
}

/// The message of an action that needs no item to act on.
pub open spec fn action_message(state: AppState, action: KeyAction) -> Message {
    match action {
        KeyAction::MoveUp => match state.ui_state.focused_pane {
            Pane::List => Message::SelectPrevItem,
            Pane::Detail => Message::Scroll(ScrollDirection::Up),
            _ => Message::Noop,
        },
        KeyAction::MoveDown => match state.ui_state.focused_pane {
            Pane::List => Message::SelectNextItem,
            Pane::Detail => Message::Scroll(ScrollDirection::Down),
            _ => Message::Noop,
        },
        KeyAction::MoveLeft | KeyAction::FocusList => Message::FocusPane(Pane::List),
        KeyAction::MoveRight | KeyAction::FocusDetail => Message::FocusPane(Pane::Detail),
        KeyAction::JumpToTop => Message::Scroll(ScrollDirection::Top),
        KeyAction::JumpToBottom => Message::Scroll(ScrollDirection::Bottom),
        KeyAction::PageUp => Message::Scroll(ScrollDirection::PageUp),
        KeyAction::PageDown => Message::Scroll(ScrollDirection::PageDown),
        KeyAction::Back => if state.ui_state.floating_window is Some {
            Message::CloseFloatingWindow
        } else {
            Message::LockVault
        },
        KeyAction::Search => Message::OpenSearch,
        KeyAction::ToggleReveal => Message::ToggleContentReveal,
        KeyAction::Save => Message::SaveVault,
        KeyAction::Help => Message::OpenFloatingWindow(FloatingWindow::Help),
        KeyAction::Settings => Message::Navigate(Screen::Settings),
        KeyAction::Lock => Message::LockVault,
        KeyAction::Quit => Message::Quit,
        KeyAction::ForceQuit => Message::ForceQuit,
        KeyAction::Undo => Message::Undo,
        KeyAction::Redo => Message::Redo,
        KeyAction::NextPane | KeyAction::PrevPane => match state.ui_state.focused_pane {
            Pane::List => Message::FocusPane(Pane::Detail),
            _ => Message::FocusPane(Pane::List),
        },
        KeyAction::DeleteItem => match state.vault_state {
            Some(vs) => match vs.selected_item_id {
                Some(id) => Message::DeleteItem(id),
                None => Message::Noop,
            },
            None => Message::Noop,
        },
        KeyAction::ToggleFavorite => match state.vault_state {
            Some(vs) => match vs.selected_item_id {
                Some(id) => Message::ToggleFavorite(id),
                None => Message::Noop,
            },
            None => Message::Noop,
        },
        KeyAction::CopyContent => match state.ui_state.focused_pane {
            Pane::Detail => Message::CopyField(0),
            _ => Message::CopyCurrentItem,
        },
        _ => Message::Noop,
    }
}

/// The message of a key action on the main screen.
pub fn action_to_message(state: &AppState, action: KeyAction) -> (r: Message)
    ensures
        crate::app::update::message_ok(&r),
        action_result(*state, action, r),
        action == KeyAction::Undo ==> r == Message::Undo,
        action == KeyAction::Redo ==> r == Message::Redo,
        action == KeyAction::Save ==> r == Message::SaveVault,
        action == KeyAction::Lock ==> r == Message::LockVault,
        action == KeyAction::Quit ==> r == Message::Quit,
        action == KeyAction::ForceQuit ==> r == Message::ForceQuit,
        action == KeyAction::Search ==> r == Message::OpenSearch,
        action == KeyAction::ToggleReveal ==> r == Message::ToggleContentReveal,
        action == KeyAction::Settings ==> r == Message::Navigate(Screen::Settings),
{
    match action {
        KeyAction::Select | KeyAction::EditItem => match state.selected_item() {
            Some(item) => match state.ui_state.focused_pane {
                Pane::Detail => {
                    if action == KeyAction::Select {
                        Message::CopyField(0)
                    } else {
                        Message::EditField(0)
                    }
                },
                _ => Message::OpenFloatingWindow(FloatingWindow::edit_item_form(item)),
            },
            None => Message::Noop,
        },
        KeyAction::NewItem => Message::OpenFloatingWindow(FloatingWindow::new_kind_selector()),
        KeyAction::Export => Message::ExportVault {
            format: ExportFormat::EncryptedJson,
            path: String::from_str("vault_export.vault"),
        },
        KeyAction::MoveUp => match state.ui_state.focused_pane {
            Pane::List => Message::SelectPrevItem,
            Pane::Detail => Message::Scroll(ScrollDirection::Up),
            _ => Message::Noop,
        },
        KeyAction::MoveDown => match state.ui_state.focused_pane {
            Pane::List => Message::SelectNextItem,
            Pane::Detail => Message::Scroll(ScrollDirection::Down),
            _ => Message::Noop,
        },
        KeyAction::MoveLeft | KeyAction::FocusList => Message::FocusPane(Pane::List),
        KeyAction::MoveRight | KeyAction::FocusDetail => Message::FocusPane(Pane::Detail),
        KeyAction::JumpToTop => Message::Scroll(ScrollDirection::Top),
        KeyAction::JumpToBottom => Message::Scroll(ScrollDirection::Bottom),
        KeyAction::PageUp => Message::Scroll(ScrollDirection::PageUp),
        KeyAction::PageDown => Message::Scroll(ScrollDirection::PageDown),
        KeyAction::Back => {
            if state.ui_state.has_floating_window() {
                Message::CloseFloatingWindow
            } else {
                Message::LockVault
            }
        },
        KeyAction::Search => Message::OpenSearch,
        KeyAction::ToggleReveal => Message::ToggleContentReveal,
        KeyAction::Save => Message::SaveVault,
        KeyAction::Help => Message::OpenFloatingWindow(FloatingWindow::Help),
        KeyAction::Settings => Message::Navigate(Screen::Settings),
        KeyAction::Lock => Message::LockVault,
        KeyAction::Quit => Message::Quit,
        KeyAction::ForceQuit => Message::ForceQuit,
        KeyAction::Undo => Message::Undo,
        KeyAction::Redo => Message::Redo,
        KeyAction::NextPane | KeyAction::PrevPane => match state.ui_state.focused_pane {
            Pane::List => Message::FocusPane(Pane::Detail),
            _ => Message::FocusPane(Pane::List),
        },
        KeyAction::DeleteItem => match &state.vault_state {
            Some(vs) => match vs.selected_item_id {
                Some(id) => Message::DeleteItem(id),
                None => Message::Noop,
            },
            None => Message::Noop,
        },
        KeyAction::ToggleFavorite => match &state.vault_state {
            Some(vs) => match vs.selected_item_id {
                Some(id) => Message::ToggleFavorite(id),
                None => Message::Noop,
            },
            None => Message::Noop,
        },
        KeyAction::CopyContent => match state.ui_state.focused_pane {
            Pane::Detail => Message::CopyField(0),
            _ => Message::CopyCurrentItem,
        },
    }
}

/// Keys of a floating window.
fn route_floating_window_key(event: KeyEvent, window: &FloatingWindow) -> (r: Message)
    ensures
        crate::app::update::message_ok(&r),
        r == window_key_message(event, *window),
{
    match window {
        FloatingWindow::Search { .. } => route_search_key(event),
        FloatingWindow::ConfirmDelete { item_id } => match event.code {
            KeyCode::Char('y') | KeyCode::Char('Y') | KeyCode::Enter => Message::ConfirmDeleteItem(*item_id),
            KeyCode::Char('n') | KeyCode::Char('N') | KeyCode::Esc => Message::CloseFloatingWindow,
            _ => Message::Noop,
        },
        FloatingWindow::ConfirmDeleteVault { index, .. } => route_confirm_delete_vault_key(event, *index),
        FloatingWindow::Help => match event.code {
            KeyCode::Esc | KeyCode::Char('q') | KeyCode::Char('?') | KeyCode::Enter => Message::CloseFloatingWindow,
            _ => Message::Noop,
        },
        FloatingWindow::KindSelector { .. } => match event.code {
            KeyCode::Down | KeyCode::Char('j') => Message::KindSelectorNext,
            KeyCode::Up | KeyCode::Char('k') => Message::KindSelectorPrev,
            KeyCode::Enter => Message::KindSelectorConfirm,
            KeyCode::Esc => Message::CloseFloatingWindow,
            _ => Message::Noop,
        },
        FloatingWindow::NewItem { .. } | FloatingWindow::EditItem { .. } => match text_input_key(&event) {
            Some(m) => m,
            None => match event.code {
                KeyCode::Enter => Message::FormSubmit,
                KeyCode::Esc => Message::InputCancel,
                KeyCode::Tab | KeyCode::Down => Message::FormNextField,
                KeyCode::BackTab | KeyCode::Up => Message::FormPrevField,
                _ => Message::Noop,
            },
        },
        FloatingWindow::TagFilter => match event.code {
            KeyCode::Esc => Message::CloseFloatingWindow,
            KeyCode::Down | KeyCode::Char('j') => Message::SelectNextItem,
            KeyCode::Up | KeyCode::Char('k') => Message::SelectPrevItem,
            KeyCode::Enter | KeyCode::Char(' ') => Message::InputSubmit,
            _ => Message::Noop,
        },
    }
}

/// Keys of the search dialog.
fn route_search_key(event: KeyEvent) -> (r: Message)
    ensures
        crate::app::update::message_ok(&r),
        r == search_key_message(event),
{
    match text_input_key(&event) {
        Some(m) => m,
        None => match event.code {
            KeyCode::Enter => Message::SearchConfirm,
            KeyCode::Esc => Message::CloseSearch,
            KeyCode::Down | KeyCode::Tab => Message::SearchNextResult,
            KeyCode::Up | KeyCode::BackTab => Message::SearchPrevResult,
            KeyCode::Char('n') => Message::SearchNextResult,
            KeyCode::Char('p') => Message::SearchPrevResult,
            _ => Message::Noop,
        },
    }
}

/// Keys of the settings screen: text input during a security workflow,
/// else list navigation.
fn route_settings_key(state: &AppState, event: KeyEvent) -> (r: Message)
    ensures
        crate::app::update::message_ok(&r),
        r == settings_key_message(*state, event),
{
    if state.settings_state.security_action.is_some() {
        return match text_input_key(&event) {
            Some(m) => m,
            None => match event.code {
                KeyCode::Enter => Message::InputSubmit,
                KeyCode::Esc => Message::CancelInput,
                _ => Message::Noop,
            },
        };
    }
    match event.code {
        KeyCode::Esc | KeyCode::Char('q') => Message::Navigate(Screen::Main),
        KeyCode::Down | KeyCode::Char('j') => Message::SelectNextItem,
        KeyCode::Up | KeyCode::Char('k') => Message::SelectPrevItem,
        KeyCode::Enter | KeyCode::Char(' ') => Message::InputSubmit,
        _ => Message::Noop,
    }
}

/// The message of a mouse event (when the mouse is on): scrolling, and
/// clicks on elements or areas (a click outside everything closes the
/// floating window). A click is recorded to tell double clicks.
pub fn route_mouse_event(state: &mut AppState, event: MouseEvent) -> (r: Message)
    requires
        old(state).wf(),
    ensures
        final(state).wf(),
        crate::app::update::message_ok(&r),
        final(state).vault_state == old(state).vault_state,
        final(state).screen == old(state).screen,
        !old(state).config.mouse_enabled ==> r is Noop,
        old(state).config.mouse_enabled ==> match event.kind {
            MouseEventKind::ScrollUp => r == (if crate::input::mouse::last_hit(
                crate::input::mouse::area_rects(old(state).ui_state.layout_regions.regions@),
                event.column,
                event.row,
            ) matches Some(i) && old(state).ui_state.layout_regions.regions@[i].0 == UiRegion::List {
                Message::SelectPrevItem
            } else {
                Message::Scroll(ScrollDirection::Up)
            }),
            MouseEventKind::ScrollDown => r == (if crate::input::mouse::last_hit(
                crate::input::mouse::area_rects(old(state).ui_state.layout_regions.regions@),
                event.column,
                event.row,
            ) matches Some(i) && old(state).ui_state.layout_regions.regions@[i].0 == UiRegion::List {
                Message::SelectNextItem
            } else {
                Message::Scroll(ScrollDirection::Down)
            }),
            MouseEventKind::Down(b) => b != MouseButton::Left ==> r is Noop,
            _ => r is Noop,
        },
{
    if !state.config.mouse_enabled {
        return Message::Noop;
    }
    match event.kind {
        MouseEventKind::ScrollUp => match state.ui_state.layout_regions.find_region(event.column, event.row) {
            Some(UiRegion::List) => Message::SelectPrevItem,
            _ => Message::Scroll(ScrollDirection::Up),
        },
        MouseEventKind::ScrollDown => match state.ui_state.layout_regions.find_region(event.column, event.row) {
            Some(UiRegion::List) => Message::SelectNextItem,
            _ => Message::Scroll(ScrollDirection::Down),
        },
        MouseEventKind::Down(button) => {
            if button != MouseButton::Left {
                return Message::Noop;
            }
            let x = event.column;
            let y = event.row;
            let element = match state.ui_state.layout_regions.find_clickable(x, y) {
                Some(e) => Some(e.clone()),
                None => None,
            };
            match element {
                Some(e) => {
                    let double = state.ui_state.layout_regions.register_click(x, y);
                    return handle_clickable_element(state, &e, x, y, double);
                },
                None => {},
            }
            match state.ui_state.layout_regions.find_region(x, y) {
                Some(region) => handle_click_in_region(state, region, x, y),
                None => {
                    if state.ui_state.floating_window.is_some() {
                        Message::CloseFloatingWindow
                    } else {
                        Message::Noop
                    }
                },
            }
        },
        _ => Message::Noop,
    }
}

/// Whether two strings are equal.
fn is(a: &String, b: &str) -> (r: bool)
    ensures
        r == (a@ == b@),
{
    *a == String::from_str(b)
}

/// The message of a click on an element.
pub fn handle_clickable_element(state: &AppState, element: &ClickableElement, x: u16, y: u16, is_double_click: bool) -> (r: Message)
    ensures
        crate::app::update::message_ok(&r),
        match *element {
            ClickableElement::VaultEntry(index) => r == (if state.login_screen.entering_password
                || state.login_screen.creating_vault {
                Message::Noop
            } else if is_double_click {
                Message::EnterPasswordMode
            } else {
                Message::LoginSelectVault(index)
            }),
            ClickableElement::ListItem(id) => r == Message::SelectItem(id),
            ClickableElement::FormField(index) => r == Message::FormFocusField(index),
            ClickableElement::KindOption(index) => r == Message::KindSelectorSelect(index),
            ClickableElement::CategoryOption(kind) => r == Message::SetKindFilter(kind),
            ClickableElement::CategoryScrollLeft => r is PrevCategory,
            ClickableElement::CategoryScrollRight => r is NextCategory,
            ClickableElement::SearchResult(index) => r == Message::SelectSearchResult(index),
            ClickableElement::Button(a) => button_result(*state, a@, r),
            ClickableElement::CloseArea => r is CloseFloatingWindow,
        },
{
    match element {
        ClickableElement::VaultEntry(index) => {
            if state.login_screen.entering_password || state.login_screen.creating_vault {
                Message::Noop
            } else if is_double_click {
                Message::EnterPasswordMode
            } else {
                Message::LoginSelectVault(*index)
            }
        },
        ClickableElement::ListItem(id) => Message::SelectItem(*id),
        ClickableElement::FormField(index) => Message::FormFocusField(*index),
        ClickableElement::KindOption(index) => Message::KindSelectorSelect(*index),
        ClickableElement::CategoryOption(kind) => Message::SetKindFilter(*kind),
        ClickableElement::CategoryScrollLeft => Message::PrevCategory,
        ClickableElement::CategoryScrollRight => Message::NextCategory,
        ClickableElement::SearchResult(index) => Message::SelectSearchResult(*index),
        ClickableElement::Button(action) => button_message(state, action),
        ClickableElement::CloseArea => Message::CloseFloatingWindow,
    }
}

/// Whether `r` is the message of the button named `a`.
pub open spec fn button_result(state: AppState, a: Seq<char>, r: Message) -> bool {
    if a == "delete"@ {
        match state.selected_item_spec() {
            Some(item) => r == Message::DeleteItem(item.id),
            None => r is Noop,
        }
    } else if a == "confirm-delete"@ {
        match state.ui_state.floating_window {
            Some(FloatingWindow::ConfirmDelete { item_id }) => r == Message::ConfirmDeleteItem(item_id),
            _ => r is Noop,
        }
    } else if a == "new-vault"@ {
        r is StartCreateVault
    } else if a == "select-vault"@ || a == "enter_password"@ {
        r is EnterPasswordMode
    } else if a == "delete-vault"@ {
        r is DeleteSelectedVault
    } else if a == "quit"@ {
        r is Quit
    } else if a == "unlock"@ || a == "submit-recovery"@ || a == "save-vault"@ || a == "confirm"@ {
        r is InputSubmit
    } else if a == "back"@ {
        r is CancelInput
    } else if a == "forgot-password"@ {
        r is StartPasswordRecovery
    } else if a == "prev-step"@ {
        r is LoginPrevStep
    } else if a == "cancel"@ {
        if state.login_screen.creating_vault { r is CancelInput } else { r is InputCancel }
    } else if a == "reveal"@ {
        r is ToggleContentReveal
    } else if a == "copy"@ {
        if state.ui_state.focused_pane == Pane::Detail { r == Message::CopyField(0) } else { r is CopyCurrentItem }
    } else if a == "edit"@ {
        match state.selected_item_spec() {
            Some(item) => r matches Message::OpenFloatingWindow(FloatingWindow::EditItem { item_id, .. }) && item_id
                == item.id,
            None => r is Noop,
        }
    } else if a == "form-save"@ || a == "submit"@ || a == "save"@ {
        r is FormSubmit
    } else if a == "form-cancel"@ || a == "cancel-delete"@ || a == "cancel-delete-vault"@ {
        r is CloseFloatingWindow
    } else if a == "confirm-delete-vault"@ {
        match state.ui_state.floating_window {
            Some(FloatingWindow::ConfirmDeleteVault { index, .. }) => r == Message::ConfirmDeleteVault(index),
            _ => r is Noop,
        }
    } else {
        r is Noop
    }
}

/// The message of a button, by its action name.
fn button_message(state: &AppState, action: &String) -> (r: Message)
    ensures
        crate::app::update::message_ok(&r),
        button_result(*state, action@, r),
{
    proof {
        reveal_strlit("back");
        reveal_strlit("cancel");
        reveal_strlit("cancel-delete");
        reveal_strlit("cancel-delete-vault");
        reveal_strlit("confirm");
        reveal_strlit("confirm-delete");
        reveal_strlit("confirm-delete-vault");
        reveal_strlit("copy");
        reveal_strlit("delete");
        reveal_strlit("delete-vault");
        reveal_strlit("edit");
        reveal_strlit("enter_password");
        reveal_strlit("forgot-password");
        reveal_strlit("form-cancel");
        reveal_strlit("form-save");
        reveal_strlit("new-vault");
        reveal_strlit("prev-step");
        reveal_strlit("quit");
        reveal_strlit("reveal");
        reveal_strlit("save");
        reveal_strlit("save-vault");
        reveal_strlit("select-vault");
        reveal_strlit("submit");
        reveal_strlit("submit-recovery");
        reveal_strlit("unlock");
        assert("confirm-delete"@.len() != "delete"@.len());
    }
    if is(action, "delete") {
        match state.selected_item() {
            Some(item) => Message::DeleteItem(item.id),
            None => Message::Noop,
        }
    } else if is(action, "confirm-delete") {
        match &state.ui_state.floating_window {
            Some(FloatingWindow::ConfirmDelete { item_id }) => Message::ConfirmDeleteItem(*item_id),
            _ => Message::Noop,
        }
    } else if is(action, "new-vault") {
        Message::StartCreateVault
    } else if is(action, "select-vault") || is(action, "enter_password") {
        Message::EnterPasswordMode
    } else if is(action, "delete-vault") {
        Message::DeleteSelectedVault
    } else if is(action, "quit") {
        Message::Quit
    } else if is(action, "unlock") || is(action, "submit-recovery") || is(action, "save-vault") || is(
        action,
        "confirm",
    ) {
        Message::InputSubmit
    } else if is(action, "back") {
        Message::CancelInput
    } else if is(action, "forgot-password") {
        Message::StartPasswordRecovery
    } else if is(action, "prev-step") {
        Message::LoginPrevStep
    } else if is(action, "cancel") {
        if state.login_screen.creating_vault {
            Message::CancelInput
        } else {
            Message::InputCancel
        }
    } else if is(action, "reveal") {
        Message::ToggleContentReveal
    } else if is(action, "copy") {
        match state.ui_state.focused_pane {
            Pane::Detail => Message::CopyField(0),
            _ => Message::CopyCurrentItem,
        }
    } else if is(action, "edit") {
        match state.selected_item() {
            Some(item) => Message::OpenFloatingWindow(FloatingWindow::edit_item_form(item)),
            None => Message::Noop,
        }
    } else if is(action, "form-save") || is(action, "submit") || is(action, "save") {
        Message::FormSubmit
    } else if is(action, "form-cancel") || is(action, "cancel-delete") || is(action, "cancel-delete-vault") {
        Message::CloseFloatingWindow
    } else if is(action, "confirm-delete-vault") {
        match &state.ui_state.floating_window {
            Some(FloatingWindow::ConfirmDeleteVault { index, .. }) => Message::ConfirmDeleteVault(*index),
            _ => Message::Noop,
        }
    } else {
        Message::Noop
    }
}

/// The message of a click in an area of the main screen: it focuses the
/// list or the detail.
pub fn handle_click_in_region(state: &AppState, region: UiRegion, x: u16, y: u16) -> (r: Message)
    ensures
        crate::app::update::message_ok(&r),
        state.screen == Screen::Main && region == UiRegion::List ==> (r matches Message::FocusPane(p) && p == Pane::List),
        state.screen == Screen::Main && region == UiRegion::Detail ==> (r matches Message::FocusPane(p) && p == Pane::Detail),
        state.screen == Screen::Main && region != UiRegion::List && region != UiRegion::Detail ==> r is Noop,
        state.screen != Screen::Main ==> r is Noop,
{
    match state.screen {
        Screen::Main => match region {
            UiRegion::List => Message::FocusPane(Pane::List),
            UiRegion::Detail => Message::FocusPane(Pane::Detail),
            _ => Message::Noop,
        },
        _ => Message::Noop,
    }
}

} // verus!
