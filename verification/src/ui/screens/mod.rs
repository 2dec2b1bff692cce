//! Screen states.
pub mod login;
pub mod settings;
pub mod export;
pub mod main;
