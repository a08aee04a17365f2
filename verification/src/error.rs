use vstd::prelude::*;

verus! {

/// Why an operation on the vault was refused.
#[derive(Debug, Clone, Copy, PartialEq, Eq, Structural)]
pub enum VaultError {
    /// No database file has been chosen.
    NoFilePath,
    /// The first line of the database is no PHC password-hash string.
    InvalidHashFormat,
    /// The password does not verify against the stored hash.
    InvalidPassword,
    /// The stored hash has no salt to derive the key from.
    NoSaltInHash,
    /// Argon2 refused to derive the key (password or salt of a length it does not take).
    KeyDerivationFailed,
    /// Argon2 refused to hash the password.
    HashingFailed,
    /// The payload is too long to be sealed under one nonce.
    PayloadTooLong,
    /// The payload part of a record line is not hex.
    InvalidPayloadHex,
    /// The nonce part of a record line is not hex.
    InvalidNonceHex,
    /// The nonce of a record line is not 12 bytes long.
    InvalidNonceLength,
    /// A record does not open under the vault key.
    DecryptionFailed,
    /// There is no entry with the index asked for.
    EntryIndexOutOfBounds,
}

} // verus!
