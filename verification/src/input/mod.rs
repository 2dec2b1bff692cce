//! Keyboard and mouse input.
pub mod mouse;
pub mod keybindings;
pub mod router;
