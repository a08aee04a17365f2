use vstd::prelude::*;
use argon2::password_hash::rand_core::OsRng;
use chacha20poly1305::aead::{Aead, AeadCore, KeyInit};
use chacha20poly1305::{ChaCha20Poly1305, Key, Nonce};

verus! {

/// Length in bytes of the Poly1305 tag that a sealed payload carries after its text.
pub const TAG_LEN: usize = 16;

/// The ciphertext (text followed by tag) that ChaCha20-Poly1305 makes of
/// `plaintext` under `key` and `nonce`, with no associated data.
pub uninterp spec fn chacha20poly1305_seal(key: Seq<u8>, nonce: Seq<u8>, plaintext: Seq<u8>) -> Seq<u8>;

/// What ChaCha20-Poly1305 opens `ciphertext` to under `key` and `nonce`, with
/// no associated data: `None` when the tag does not authenticate it.
pub uninterp spec fn chacha20poly1305_open(key: Seq<u8>, nonce: Seq<u8>, ciphertext: Seq<u8>) -> Option<Seq<u8>>;

/// Whether ChaCha20-Poly1305 accepts a plaintext of `len` bytes: the block
/// counter of one message must not run past `u32::MAX` blocks of 64 bytes.
pub open spec fn seal_accepts_len(len: nat) -> bool {
    len / 64 < 0xffff_ffff
}

/// `Aead::encrypt` of `ChaCha20Poly1305`. Claims: it succeeds exactly when the
/// plaintext length is accepted (the only check in `encrypt_in_place_detached`);
/// the result is the named ciphertext, 16 bytes longer than the plaintext; and
/// opening it under the same key and nonce gives the plaintext back.
#[verifier::external_body]
pub(crate) fn seal(key: &[u8; 32], nonce: &[u8; 12], plaintext: &[u8]) -> (res: Option<Vec<u8>>)
    ensures
        res is Some <==> seal_accepts_len(plaintext@.len()),
        res matches Some(c) ==> c@ == chacha20poly1305_seal(key@, nonce@, plaintext@),
        res matches Some(c) ==> c@.len() == plaintext@.len() + TAG_LEN,
        res matches Some(c) ==> chacha20poly1305_open(key@, nonce@, c@) == Some(plaintext@),
{
    let cipher = ChaCha20Poly1305::new(Key::from_slice(key));
    cipher.encrypt(Nonce::from_slice(nonce), plaintext).ok()
}

/// `Aead::decrypt` of `ChaCha20Poly1305`. Claims: its result is the named
/// opening of `ciphertext` under `key` and `nonce`.
#[verifier::external_body]
pub(crate) fn open(key: &[u8; 32], nonce: &[u8; 12], ciphertext: &[u8]) -> (res: Option<Vec<u8>>)
    ensures
        match res {
            Some(p) => chacha20poly1305_open(key@, nonce@, ciphertext@) == Some(p@),
            None => chacha20poly1305_open(key@, nonce@, ciphertext@) is None,
        },
{
    let cipher = ChaCha20Poly1305::new(Key::from_slice(key));
    cipher.decrypt(Nonce::from_slice(nonce), ciphertext).ok()
}

/// `AeadCore::generate_nonce` with the operating system's random source: a
/// fresh 96-bit nonce. Nothing is claimed of its value.
#[verifier::external_body]
pub(crate) fn random_nonce() -> (res: [u8; 12]) {
    let nonce = ChaCha20Poly1305::generate_nonce(&mut OsRng);
    let mut out = [0u8; 12];
    out.copy_from_slice(&nonce);
    out
}

} // verus!
