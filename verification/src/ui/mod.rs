//! The state behind the screens and widgets of the terminal interface.
pub mod screens;
pub mod widgets;
pub mod theme;
pub mod app;
