//! The keybinding help overlay.
use vstd::prelude::*;

verus! {

/// A titled group of keybindings: each is a key and what it does.
#[derive(Debug, Clone)]
pub struct HelpSection {
    pub title: &'static str,
    pub bindings: Vec<(&'static str, &'static str)>,
}

} // verus!
