//! Vault: a verified core for a terminal vault manager that keeps seed
//! phrases, passwords and API keys encrypted at rest.
//!
//! The library holds the data model, the cryptographic plumbing around
//! well-known primitives, the recovery scheme based on security questions,
//! and the state machines behind the screens and forms of the application.
pub mod error;
pub mod text;
pub mod cursor;
pub mod clock;
pub mod seqs;
pub mod domain;
pub mod crypto;
pub mod storage;
pub mod app;
pub mod ui;
pub mod input;
pub mod clipboard;

pub use error::{Error, Result};
