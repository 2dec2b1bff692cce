//! Keybindings: keys, modifiers, the actions keys are bound to, and the
//! table of bindings.
use vstd::prelude::*;

use crate::crypto::secure_string::{decimal, decimal_string, string_push};

verus! {

/// What a key does on the main screen.
#[derive(Debug, Clone, Copy, PartialEq, Eq, Structural, Hash)]
pub enum KeyAction {
    MoveUp,
    MoveDown,
    MoveLeft,
    MoveRight,
    JumpToTop,
    JumpToBottom,
    PageUp,
    PageDown,
    Select,
    Back,
    Search,
    NewItem,
    EditItem,
    DeleteItem,
    CopyContent,
    ToggleReveal,
    ToggleFavorite,
    Save,
    Export,
    Help,
    Settings,
    Lock,
    Quit,
    ForceQuit,
    Undo,
    Redo,
    FocusList,
    FocusDetail,
    NextPane,
    PrevPane,
}

/// A key of the keyboard.
#[derive(Debug, Clone, Copy, PartialEq, Eq, Structural, Hash)]
pub enum KeyCode {
    Backspace,
    Enter,
    Left,
    Right,
    Up,
    Down,
    Home,
    End,
    PageUp,
    PageDown,
    Tab,
    BackTab,
    Delete,
    Insert,
    F(u8),
    Char(char),
    Null,
    Esc,
    /// Any other key (lock keys, media keys, lone modifiers).
    Other,
}

/// A set of modifier keys, as bits: shift 1, control 2, alt 4, super 8,
/// hyper 16, meta 32.
#[derive(Debug, Clone, Copy, PartialEq, Eq, Structural, Hash)]
pub struct KeyModifiers {
    pub bits: u8,
}

/// The bit of the shift key.
pub const SHIFT_BIT: u8 = 1;

/// The bit of the control key.
pub const CONTROL_BIT: u8 = 2;

/// The bit of the alt key.
pub const ALT_BIT: u8 = 4;

impl KeyModifiers {
    /// No modifier.
    pub fn none() -> (r: KeyModifiers)
        ensures
            r.bits == 0,
    {
        KeyModifiers { bits: 0 }
    }

    /// Shift alone.
    pub fn shift() -> (r: KeyModifiers)
        ensures
            r.bits == SHIFT_BIT,
    {
        KeyModifiers { bits: SHIFT_BIT }
    }

    /// Control alone.
    pub fn control() -> (r: KeyModifiers)
        ensures
            r.bits == CONTROL_BIT,
    {
        KeyModifiers { bits: CONTROL_BIT }
    }

    /// Alt alone.
    pub fn alt() -> (r: KeyModifiers)
        ensures
            r.bits == ALT_BIT,
    {
        KeyModifiers { bits: ALT_BIT }
    }

    /// Whether every modifier of `other` is held.
    pub open spec fn has(self, other: KeyModifiers) -> bool {
        self.bits & other.bits == other.bits
    }

    /// Whether every modifier of `other` is held.
    pub fn contains(&self, other: KeyModifiers) -> (r: bool)
        ensures
            r == self.has(other),
    {
        self.bits & other.bits == other.bits
    }
}

/// A key press with the modifiers held.
#[derive(Debug, Clone, Copy, PartialEq, Eq, Structural, Hash)]
pub struct KeyEvent {
    pub code: KeyCode,
    pub modifiers: KeyModifiers,
}

impl KeyEvent {
    /// A press of `code` with `modifiers`.
    pub fn new(code: KeyCode, modifiers: KeyModifiers) -> (r: KeyEvent)
        ensures
            r == (KeyEvent { code, modifiers }),
    {
        KeyEvent { code, modifiers }
    }
}

/// A key with modifiers, as bound to an action.
#[derive(Debug, Clone, Copy, PartialEq, Eq, Structural, Hash)]
pub struct KeyCombo {
    pub code: KeyCode,
    pub modifiers: KeyModifiers,
}

impl KeyCombo {
    /// `code` with `modifiers`.
    pub fn new(code: KeyCode, modifiers: KeyModifiers) -> (r: KeyCombo)
        ensures
            r == (KeyCombo { code, modifiers }),
    {
        KeyCombo { code, modifiers }
    }

    /// `code` with no modifier.
    pub fn plain(code: KeyCode) -> (r: KeyCombo)
        ensures
            r == (KeyCombo { code, modifiers: KeyModifiers { bits: 0 } }),
    {
        KeyCombo::new(code, KeyModifiers::none())
    }

    /// `code` with control.
    pub fn ctrl(code: KeyCode) -> (r: KeyCombo)
        ensures
            r == (KeyCombo { code, modifiers: KeyModifiers { bits: CONTROL_BIT } }),
    {
        KeyCombo::new(code, KeyModifiers::control())
    }

    /// `code` with shift.
    pub fn shift(code: KeyCode) -> (r: KeyCombo)
        ensures
            r == (KeyCombo { code, modifiers: KeyModifiers { bits: SHIFT_BIT } }),
    {
        KeyCombo::new(code, KeyModifiers::shift())
    }

    /// The key and modifiers of a key press.
    pub fn from_event(event: KeyEvent) -> (r: KeyCombo)
        ensures
            r == (KeyCombo { code: event.code, modifiers: event.modifiers }),
    {
        KeyCombo { code: event.code, modifiers: event.modifiers }
    }
}

/// The binding of a combo in a table of bindings, if any.
pub open spec fn bound_action(bindings: Seq<(KeyCombo, KeyAction)>, combo: KeyCombo) -> Option<KeyAction>
    decreases bindings.len(),
{
    if bindings.len() == 0 {
        None
    } else if bindings.last().0 == combo {
        Some(bindings.last().1)
    } else {
        bound_action(bindings.drop_last(), combo)
    }
}

/// No combo is bound twice.
pub open spec fn distinct_combos(bindings: Seq<(KeyCombo, KeyAction)>) -> bool {
    forall|i: int, j: int| 0 <= i < j < bindings.len() ==> bindings[i].0 != bindings[j].0
}

/// The default bindings: Vim-style movement and single-letter actions.
pub open spec fn default_bindings() -> Seq<(KeyCombo, KeyAction)> {
    seq![
        (KeyCombo { code: KeyCode::Char('j'), modifiers: KeyModifiers { bits: 0 } }, KeyAction::MoveDown),
        (KeyCombo { code: KeyCode::Char('k'), modifiers: KeyModifiers { bits: 0 } }, KeyAction::MoveUp),
        (KeyCombo { code: KeyCode::Char('h'), modifiers: KeyModifiers { bits: 0 } }, KeyAction::MoveLeft),
        (KeyCombo { code: KeyCode::Char('l'), modifiers: KeyModifiers { bits: 0 } }, KeyAction::MoveRight),
        (KeyCombo { code: KeyCode::Down, modifiers: KeyModifiers { bits: 0 } }, KeyAction::MoveDown),
        (KeyCombo { code: KeyCode::Up, modifiers: KeyModifiers { bits: 0 } }, KeyAction::MoveUp),
        (KeyCombo { code: KeyCode::Left, modifiers: KeyModifiers { bits: 0 } }, KeyAction::MoveLeft),
        (KeyCombo { code: KeyCode::Right, modifiers: KeyModifiers { bits: 0 } }, KeyAction::MoveRight),
        (KeyCombo { code: KeyCode::Char('g'), modifiers: KeyModifiers { bits: 0 } }, KeyAction::JumpToTop),
        (KeyCombo { code: KeyCode::Char('G'), modifiers: KeyModifiers { bits: 1 } }, KeyAction::JumpToBottom),
        (KeyCombo { code: KeyCode::Char('u'), modifiers: KeyModifiers { bits: 2 } }, KeyAction::PageUp),
        (KeyCombo { code: KeyCode::Char('d'), modifiers: KeyModifiers { bits: 2 } }, KeyAction::PageDown),
        (KeyCombo { code: KeyCode::PageUp, modifiers: KeyModifiers { bits: 0 } }, KeyAction::PageUp),
        (KeyCombo { code: KeyCode::PageDown, modifiers: KeyModifiers { bits: 0 } }, KeyAction::PageDown),
        (KeyCombo { code: KeyCode::Enter, modifiers: KeyModifiers { bits: 0 } }, KeyAction::Select),
        (KeyCombo { code: KeyCode::Esc, modifiers: KeyModifiers { bits: 0 } }, KeyAction::Back),
        (KeyCombo { code: KeyCode::Char('/'), modifiers: KeyModifiers { bits: 0 } }, KeyAction::Search),
        (KeyCombo { code: KeyCode::Char('n'), modifiers: KeyModifiers { bits: 0 } }, KeyAction::NewItem),
        (KeyCombo { code: KeyCode::Char('e'), modifiers: KeyModifiers { bits: 0 } }, KeyAction::EditItem),
        (KeyCombo { code: KeyCode::Char('d'), modifiers: KeyModifiers { bits: 0 } }, KeyAction::DeleteItem),
        (KeyCombo { code: KeyCode::Char('y'), modifiers: KeyModifiers { bits: 0 } }, KeyAction::CopyContent),
        (KeyCombo { code: KeyCode::Char('r'), modifiers: KeyModifiers { bits: 0 } }, KeyAction::ToggleReveal),
        (KeyCombo { code: KeyCode::Char('f'), modifiers: KeyModifiers { bits: 0 } }, KeyAction::ToggleFavorite),
        (KeyCombo { code: KeyCode::Char('s'), modifiers: KeyModifiers { bits: 2 } }, KeyAction::Save),
        (KeyCombo { code: KeyCode::Char('e'), modifiers: KeyModifiers { bits: 2 } }, KeyAction::Export),
        (KeyCombo { code: KeyCode::Char('?'), modifiers: KeyModifiers { bits: 0 } }, KeyAction::Help),
        (KeyCombo { code: KeyCode::Char(','), modifiers: KeyModifiers { bits: 0 } }, KeyAction::Settings),
        (KeyCombo { code: KeyCode::Char('l'), modifiers: KeyModifiers { bits: 2 } }, KeyAction::Lock),
        (KeyCombo { code: KeyCode::Char('q'), modifiers: KeyModifiers { bits: 0 } }, KeyAction::Quit),
        (KeyCombo { code: KeyCode::Char('q'), modifiers: KeyModifiers { bits: 2 } }, KeyAction::ForceQuit),
        (KeyCombo { code: KeyCode::Char('c'), modifiers: KeyModifiers { bits: 2 } }, KeyAction::ForceQuit),
        (KeyCombo { code: KeyCode::Char('u'), modifiers: KeyModifiers { bits: 0 } }, KeyAction::Undo),
        (KeyCombo { code: KeyCode::Char('r'), modifiers: KeyModifiers { bits: 2 } }, KeyAction::Redo),
        (KeyCombo { code: KeyCode::Char('1'), modifiers: KeyModifiers { bits: 0 } }, KeyAction::FocusList),
        (KeyCombo { code: KeyCode::Char('2'), modifiers: KeyModifiers { bits: 0 } }, KeyAction::FocusDetail),
        (KeyCombo { code: KeyCode::Tab, modifiers: KeyModifiers { bits: 0 } }, KeyAction::NextPane),
        (KeyCombo { code: KeyCode::BackTab, modifiers: KeyModifiers { bits: 1 } }, KeyAction::PrevPane)
    ]
}

/// A table of keybindings; each combo is bound to at most one action.
#[derive(Debug, Clone)]
pub struct KeybindingConfig {
    bindings: Vec<(KeyCombo, KeyAction)>,
}

impl Default for KeybindingConfig {
    fn default() -> (r: KeybindingConfig)
        ensures
            r@ == default_bindings(),
            r.wf(),
    {
        let bindings = vec![
            (KeyCombo::plain(KeyCode::Char('j')), KeyAction::MoveDown),
            (KeyCombo::plain(KeyCode::Char('k')), KeyAction::MoveUp),
            (KeyCombo::plain(KeyCode::Char('h')), KeyAction::MoveLeft),
            (KeyCombo::plain(KeyCode::Char('l')), KeyAction::MoveRight),
            (KeyCombo::plain(KeyCode::Down), KeyAction::MoveDown),
            (KeyCombo::plain(KeyCode::Up), KeyAction::MoveUp),
            (KeyCombo::plain(KeyCode::Left), KeyAction::MoveLeft),
            (KeyCombo::plain(KeyCode::Right), KeyAction::MoveRight),
            (KeyCombo::plain(KeyCode::Char('g')), KeyAction::JumpToTop),
            (KeyCombo::shift(KeyCode::Char('G')), KeyAction::JumpToBottom),
            (KeyCombo::ctrl(KeyCode::Char('u')), KeyAction::PageUp),
            (KeyCombo::ctrl(KeyCode::Char('d')), KeyAction::PageDown),
            (KeyCombo::plain(KeyCode::PageUp), KeyAction::PageUp),
            (KeyCombo::plain(KeyCode::PageDown), KeyAction::PageDown),
            (KeyCombo::plain(KeyCode::Enter), KeyAction::Select),
            (KeyCombo::plain(KeyCode::Esc), KeyAction::Back),
            (KeyCombo::plain(KeyCode::Char('/')), KeyAction::Search),
            (KeyCombo::plain(KeyCode::Char('n')), KeyAction::NewItem),
            (KeyCombo::plain(KeyCode::Char('e')), KeyAction::EditItem),
            (KeyCombo::plain(KeyCode::Char('d')), KeyAction::DeleteItem),
            (KeyCombo::plain(KeyCode::Char('y')), KeyAction::CopyContent),
            (KeyCombo::plain(KeyCode::Char('r')), KeyAction::ToggleReveal),
            (KeyCombo::plain(KeyCode::Char('f')), KeyAction::ToggleFavorite),
            (KeyCombo::ctrl(KeyCode::Char('s')), KeyAction::Save),
            (KeyCombo::ctrl(KeyCode::Char('e')), KeyAction::Export),
            (KeyCombo::plain(KeyCode::Char('?')), KeyAction::Help),
            (KeyCombo::plain(KeyCode::Char(',')), KeyAction::Settings),
            (KeyCombo::ctrl(KeyCode::Char('l')), KeyAction::Lock),
            (KeyCombo::plain(KeyCode::Char('q')), KeyAction::Quit),
            (KeyCombo::ctrl(KeyCode::Char('q')), KeyAction::ForceQuit),
            (KeyCombo::ctrl(KeyCode::Char('c')), KeyAction::ForceQuit),
            (KeyCombo::plain(KeyCode::Char('u')), KeyAction::Undo),
            (KeyCombo::ctrl(KeyCode::Char('r')), KeyAction::Redo),
            (KeyCombo::plain(KeyCode::Char('1')), KeyAction::FocusList),
            (KeyCombo::plain(KeyCode::Char('2')), KeyAction::FocusDetail),
            (KeyCombo::plain(KeyCode::Tab), KeyAction::NextPane),
            (KeyCombo::shift(KeyCode::BackTab), KeyAction::PrevPane),
        ];
        assert(bindings@ =~= default_bindings());
        assert(distinct_combos(default_bindings()));
        KeybindingConfig { bindings }
    }
}

impl View for KeybindingConfig {
    type V = Seq<(KeyCombo, KeyAction)>;

    closed spec fn view(&self) -> Seq<(KeyCombo, KeyAction)> {
        self.bindings@
    }
}

impl KeybindingConfig {
    /// No combo is bound twice.
    pub open spec fn wf(&self) -> bool {
        distinct_combos(self@)
    }

    /// The action bound to the key and modifiers of a key press, if any.
    pub fn get_action(&self, event: KeyEvent) -> (r: Option<KeyAction>)
        ensures
            r == bound_action(self@, KeyCombo { code: event.code, modifiers: event.modifiers }),
    {
        let combo = KeyCombo::from_event(event);
        let mut i: usize = self.bindings.len();
        assert(self@.take(i as int) =~= self@);
        while i > 0
            invariant
                combo == (KeyCombo { code: event.code, modifiers: event.modifiers }),
                i <= self@.len(),
                bound_action(self@, combo) == bound_action(self@.take(i as int), combo),
            decreases i,
        {
            assert(self@.take(i as int) =~= self@.take(i - 1).push(self@[i - 1]));
            proof {
                lemma_bound_push(self@.take(i - 1), self@[i - 1], combo);
            }
            if self.bindings[i - 1].0 == combo {
                return Some(self.bindings[i - 1].1);
            }
            i = i - 1;
        }
        None
    }

    /// Binds `combo` to `action`, replacing its earlier binding.
    pub fn set(&mut self, combo: KeyCombo, action: KeyAction)
        requires
            old(self).wf(),
        ensures
            final(self).wf(),
            bound_action(final(self)@, combo) == Some(action),
            forall|c: KeyCombo| c != combo ==> bound_action(final(self)@, c) == bound_action(old(self)@, c),
    {
        self.remove(&combo);
        let ghost before = self@;
        self.bindings.push((combo, action));
        proof {
            assert(self@.drop_last() =~= before);
            assert forall|c: KeyCombo| c != combo implies bound_action(self@, c) == bound_action(old(self)@, c) by {
            }
        }
    }

    /// Unbinds `combo`.
    pub fn remove(&mut self, combo: &KeyCombo)
        requires
            old(self).wf(),
        ensures
            final(self).wf(),
            bound_action(final(self)@, *combo) is None,
            forall|c: KeyCombo| c != *combo ==> bound_action(final(self)@, c) == bound_action(old(self)@, c),
            forall|i: int| 0 <= i < final(self)@.len() ==> final(self)@[i].0 != *combo,
    {
        let ghost old_b = self@;
        let mut kept: Vec<(KeyCombo, KeyAction)> = Vec::new();
        let mut i: usize = 0;
        while i < self.bindings.len()
            invariant
                self@ == old_b,
                i <= old_b.len(),
                distinct_combos(old_b),
                distinct_combos(kept@),
                forall|k: int| 0 <= k < kept@.len() ==> kept@[k].0 != *combo,
                forall|c: KeyCombo| c != *combo ==> bound_action(kept@, c) == bound_action(old_b.take(i as int), c),
                forall|k: int| 0 <= k < kept@.len() ==> (exists|m: int| 0 <= m < i && #[trigger] old_b[m].0 == #[trigger] kept@[k].0),
            decreases old_b.len() - i,
        {
            let e = self.bindings[i];
            assert(old_b.take(i + 1).drop_last() =~= old_b.take(i as int));
            assert(old_b.take(i + 1).last() == e);
            if e.0 != *combo {
                let ghost before = kept@;
                kept.push(e);
                proof {
                    assert(kept@.drop_last() =~= before);
                    assert(kept@.last() == e);
                    assert(old_b.take(i + 1) =~= old_b.take(i as int).push(e));
                    assert forall|c: KeyCombo| c != *combo implies bound_action(kept@, c) == bound_action(
                        old_b.take(i + 1),
                        c,
                    ) by {
                        lemma_bound_push(before, e, c);
                        lemma_bound_push(old_b.take(i as int), e, c);
                    }
                    assert forall|a: int, b: int| 0 <= a < b < kept@.len() implies kept@[a].0 != kept@[b].0 by {
                        if b == kept@.len() - 1 {
                            let m = choose|m: int| 0 <= m < i && #[trigger] old_b[m].0 == kept@[a].0;
                        }
                    }
                }
            }
            proof {
                assert(old_b.take(i + 1) =~= old_b.take(i as int).push(e));
                assert forall|c: KeyCombo| c != *combo implies bound_action(kept@, c) == bound_action(
                    old_b.take(i + 1),
                    c,
                ) by {
                    lemma_bound_push(old_b.take(i as int), e, c);
                }
            }
            i = i + 1;
        }
        assert(old_b.take(i as int) =~= old_b);
        self.bindings = kept;
        proof {
            lemma_unbound(self@, *combo);
        }
    }

    /// The combos bound to `action`, in table order.
    pub fn get_bindings(&self, action: KeyAction) -> (r: Vec<KeyCombo>)
        ensures
            r@ == combos_for(self@, action),
    {
        let mut r: Vec<KeyCombo> = Vec::new();
        let mut i: usize = 0;
        assert(self@.take(0) =~= Seq::<(KeyCombo, KeyAction)>::empty());
        while i < self.bindings.len()
            invariant
                i <= self@.len(),
                r@ == combos_for(self@.take(i as int), action),
            decreases self@.len() - i,
        {
            let e = self.bindings[i];
            assert(self@.take(i + 1).drop_last() =~= self@.take(i as int));
            assert(self@.take(i + 1).last() == e);
            if e.1 == action {
                r.push(e.0);
            }
            i = i + 1;
        }
        assert(self@.take(i as int) =~= self@);
        r
    }
}

/// The combos bound to `action`, in table order.
pub open spec fn combos_for(bindings: Seq<(KeyCombo, KeyAction)>, action: KeyAction) -> Seq<KeyCombo>
    decreases bindings.len(),
{
    if bindings.len() == 0 {
        Seq::empty()
    } else {
        let rest = combos_for(bindings.drop_last(), action);
        if bindings.last().1 == action {
            rest.push(bindings.last().0)
        } else {
            rest
        }
    }
}

/// Appending a binding binds its combo and leaves the others alone.
proof fn lemma_bound_push(b: Seq<(KeyCombo, KeyAction)>, e: (KeyCombo, KeyAction), c: KeyCombo)
    ensures
        bound_action(b.push(e), c) == (if e.0 == c { Some(e.1) } else { bound_action(b, c) }),
{
    assert(b.push(e).drop_last() =~= b);
    assert(b.push(e).last() == e);
}

/// A table where `combo` appears nowhere binds nothing to it.
proof fn lemma_unbound(b: Seq<(KeyCombo, KeyAction)>, combo: KeyCombo)
    requires
        forall|i: int| 0 <= i < b.len() ==> b[i].0 != combo,
    ensures
        bound_action(b, combo) is None,
    decreases b.len(),
{
    if b.len() > 0 {
        lemma_unbound(b.drop_last(), combo);
    }
}

/// How a key is written.
pub open spec fn key_label(code: KeyCode) -> Seq<char> {
    match code {
        KeyCode::Char(c) => seq![c],
        KeyCode::Enter => "Enter"@,
        KeyCode::Esc => "Esc"@,
        KeyCode::Tab => "Tab"@,
        KeyCode::BackTab => "BackTab"@,
        KeyCode::Backspace => "Backspace"@,
        KeyCode::Delete => "Delete"@,
        KeyCode::Up => "\u{2191}"@,
        KeyCode::Down => "\u{2193}"@,
        KeyCode::Left => "\u{2190}"@,
        KeyCode::Right => "\u{2192}"@,
        KeyCode::Home => "Home"@,
        KeyCode::End => "End"@,
        KeyCode::PageUp => "PgUp"@,
        KeyCode::PageDown => "PgDn"@,
        KeyCode::F(n) => "F"@ + decimal(n as nat),
        _ => "?"@,
    }
}

/// How a combo is written: the modifiers held (control, alt, shift, in that
/// order) and the key, joined by `+`.
pub open spec fn combo_label(combo: KeyCombo) -> Seq<char> {
    (if combo.modifiers.has(KeyModifiers { bits: CONTROL_BIT }) { "Ctrl+"@ } else { Seq::empty() })
        + (if combo.modifiers.has(KeyModifiers { bits: ALT_BIT }) { "Alt+"@ } else { Seq::empty() })
        + (if combo.modifiers.has(KeyModifiers { bits: SHIFT_BIT }) { "Shift+"@ } else { Seq::empty() })
        + key_label(combo.code)
}

/// Writes a combo for display, such as `Ctrl+s`.
pub fn format_key_combo(combo: &KeyCombo) -> (r: String)
    ensures
        r@ == combo_label(*combo),
{
    proof {
        reveal_strlit("Ctrl+");
        reveal_strlit("Alt+");
        reveal_strlit("Shift+");
        reveal_strlit("Enter");
        reveal_strlit("Esc");
        reveal_strlit("Tab");
        reveal_strlit("BackTab");
        reveal_strlit("Backspace");
        reveal_strlit("Delete");
        reveal_strlit("\u{2191}");
        reveal_strlit("\u{2193}");
        reveal_strlit("\u{2190}");
        reveal_strlit("\u{2192}");
        reveal_strlit("Home");
        reveal_strlit("End");
        reveal_strlit("PgUp");
        reveal_strlit("PgDn");
        reveal_strlit("F");
        reveal_strlit("?");
    }
    let mut r = String::new();
    if combo.modifiers.contains(KeyModifiers::control()) {
        r.append("Ctrl+");
    }
    if combo.modifiers.contains(KeyModifiers::alt()) {
        r.append("Alt+");
    }
    if combo.modifiers.contains(KeyModifiers::shift()) {
        r.append("Shift+");
    }
    let ghost prefix = r@;
    match combo.code {
        KeyCode::Char(c) => string_push(&mut r, c),
        KeyCode::Enter => r.append("Enter"),
        KeyCode::Esc => r.append("Esc"),
        KeyCode::Tab => r.append("Tab"),
        KeyCode::BackTab => r.append("BackTab"),
        KeyCode::Backspace => r.append("Backspace"),
        KeyCode::Delete => r.append("Delete"),
        KeyCode::Up => r.append("\u{2191}"),
        KeyCode::Down => r.append("\u{2193}"),
        KeyCode::Left => r.append("\u{2190}"),
        KeyCode::Right => r.append("\u{2192}"),
        KeyCode::Home => r.append("Home"),
        KeyCode::End => r.append("End"),
        KeyCode::PageUp => r.append("PgUp"),
        KeyCode::PageDown => r.append("PgDn"),
        KeyCode::F(n) => {
            r.append("F");
            let d = decimal_string(n as u64);
            r.append(d.as_str());
        },
        _ => r.append("?"),
    }
    assert(r@ =~= combo_label(*combo));
    r
}

} // verus!
