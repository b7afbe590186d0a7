# rusty_vault

A terminal password vault. Accounts (website, user name, password) and API
credentials (name, API key, client id, client secret) are kept in a SQLite
file; every secret is sealed with AES-256-GCM under a key derived from the
master password with Argon2id, and a sealed verifier text tells whether a
typed master password is the right one.

Layout:

- `src/` — the verified library (Verus).
  - `model.rs`: modes, tabs, form fields and their cycles, revealed secrets.
  - `crypto.rs`: key derivation, sealing and opening, the verifier; the calls
    into `aes-gcm`, `argon2`, `base64` and `rand` stand behind small trusted
    wrappers whose contracts name what those crates compute.
  - `app.rs`: the vault's state (`App`), its abstract view, and the screen
    operations that need no storage.
  - `flows.rs`: saving, deleting and reloading, split into a decision step and
    the step that applies the store's answer.
  - `master.rs`: unlocking, creating the vault, and changing the master
    password (every secret re-sealed under the new key before anything is
    written).
  - `update.rs`: what each key press does, and the work it leaves over.
  - `screen.rs`: what the screens show (masking, captions, hints).
  - `laws.rs`: properties that span several operations.
  - `text.rs`, `wipe.rs`: string helpers and memory scrubbing (`zeroize`).
- `app/` — the program around it: SQLite access (`rusqlite`), the clipboard
  (`arboard`), key events and drawing (`ratatui`).
- `tests/` — tests of the library.
