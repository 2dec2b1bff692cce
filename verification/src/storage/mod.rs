//! Configuration, the registry of known vaults and the vault file format.
pub mod config;
pub mod registry;
pub mod vault_file;
