//! The status line: hints on the keys that work in the current context.
use vstd::prelude::*;

use crate::app::state::{AppMode, AppState, Pane};

verus! {

/// The key hints for a state: by mode, and when a vault is open by the
/// floating window or the focused pane.
pub open spec fn context_hints(state: AppState) -> Seq<char> {
    match state.mode {
        AppMode::Locked => "Enter:unlock n:new q:quit"@,
        AppMode::Unlocked => if state.ui_state.floating_window is Some {
            "Esc:close"@
        } else {
            match state.ui_state.focused_pane {
                Pane::List => "j/k:nav /:search n:new y:copy"@,
                Pane::Detail => "j/k:scroll r:reveal e:edit"@,
                Pane::Search => "Enter:select Esc:cancel"@,
            }
        },
        AppMode::Creating => "Enter:confirm Esc:cancel"@,
        AppMode::Exporting => "Enter:export Esc:cancel"@,
    }
}

/// The key hints shown for the current context.
pub fn get_context_hints(state: &AppState) -> (r: String)
    ensures
        r@ == context_hints(*state),
{
    match state.mode {
        AppMode::Locked => String::from_str("Enter:unlock n:new q:quit"),
        AppMode::Unlocked => {
            if state.ui_state.has_floating_window() {
                String::from_str("Esc:close")
            } else {
                match state.ui_state.focused_pane {
                    Pane::List => String::from_str("j/k:nav /:search n:new y:copy"),
                    Pane::Detail => String::from_str("j/k:scroll r:reveal e:edit"),
                    Pane::Search => String::from_str("Enter:select Esc:cancel"),
                }
            }
        },
        AppMode::Creating => String::from_str("Enter:confirm Esc:cancel"),
        AppMode::Exporting => String::from_str("Enter:export Esc:cancel"),
    }
}

} // verus!
