# vault

A terminal vault manager for seed phrases, passwords, API keys and notes,
kept encrypted at rest (AES-256-GCM or ChaCha20-Poly1305 under an Argon2id key
derived from a master password and an optional key file), with a recovery
scheme based on security questions.

## Layout

- `src/` is the library, verified with Verus:
  - `domain/` items, tags, history, vaults, masking and security questions;
  - `crypto/` secrets, key derivation, ciphers and key files;
  - `storage/` configuration, the registry of vaults and the vault file format;
  - `app/` the application state, messages, effects, the update function and
    the security workflows of the settings;
  - `ui/` the state behind screens, widgets and themes;
  - `input/` key bindings, mouse regions and routing events to messages;
  - `text.rs`, `cursor.rs`, `seqs.rs`, `clock.rs`, `error.rs` support code.
- `app/` is the program around it: terminal events, drawing, files, the
  clipboard and the encoding of stored values.
- `tests/` exercises the library.
