//! Business data: items, tags, vaults, history and recovery questions.
pub mod history;
pub mod item;
pub mod mask;
pub mod security_question;
pub mod tag;
pub mod vault;

pub use history::{HistoryAction, HistoryEntry, ItemSnapshot, UndoEntry, UndoStack};
pub use item::{CustomField, CustomFieldType, Item, ItemContent, ItemKind};
pub use security_question::SecurityQuestion;
pub use tag::Tag;
pub use vault::{Vault, VaultSettings};
