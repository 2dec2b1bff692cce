//! The application's state and the messages and effects that drive it.
pub mod state;
pub mod message;
pub mod effect;
pub mod update;
pub mod security;
pub mod creation;
pub mod form_text;
