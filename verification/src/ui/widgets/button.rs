//! Buttons: their styles and where they were drawn.
use vstd::prelude::*;

use crate::input::mouse::ClickRegion;

verus! {

/// How a button is drawn.
#[derive(Debug, Clone, Copy, PartialEq, Eq, Structural)]
pub enum ButtonStyle {
    /// The main action, in the accent color.
    Primary,
    /// A destructive action, in the error color.
    Danger,
    /// Any other action.
    Secondary,
}

/// A button and where it was drawn.
#[derive(Debug, Clone)]
pub struct ButtonRegion {
    pub name: String,
    pub region: ClickRegion,
}

} // verus!
