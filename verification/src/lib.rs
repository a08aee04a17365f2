//! A password vault: an Argon2-protected database file whose entries are
//! sealed with ChaCha20-Poly1305 and stored as hex-encoded lines.
pub mod entry;
pub mod hex_text;
pub mod aead;
pub mod text;
pub mod kdf;
pub mod error;
pub mod record;
pub mod database;
pub mod app_state;
