[package]
name = "rusty_vault"
version = "0.1.0"
edition = "2021"
publish = false

[dependencies]
aes-gcm = "0.10"
argon2 = "0.5"
base64 = "0.22"
rand = "0.8"
zeroize = "1"
color-eyre = "0.6"
ratatui = "0.29"
rusqlite = { version = "0.32", features = ["bundled"] }
arboard = "3"
