//! A terminal password vault: the state machine behind its screens, the
//! cryptography that seals its secrets, and the keyboard dispatch that drives it.
//! Storage, the clipboard and drawing are left to the program that embeds it.

pub mod model;
pub mod text;
pub mod wipe;
pub mod crypto;
pub mod app;
pub mod flows;
pub mod master;
pub mod update;
pub mod laws;
pub mod screen;
