# rustpass

A password manager's vault, verified with Verus.

A vault is one text file. Its first line is the Argon2d PHC hash of the
master password; every other line is an entry, the ChaCha20-Poly1305
ciphertext of the entry's JSON and its nonce, both in hex, separated by `:`.
The vault key is Argon2d of the master password with the salt kept in the
hash.

- `src/` — the library: hex text (`hex_text`), the AEAD (`aead`) and Argon2
  (`kdf`) calls with their contracts, the record line format (`record`), the
  vault operations (`database`: create, unlock, seal, read, update) and the
  window's state machine (`app_state`), with the laws that tie them together.
- `app/` — the egui program: widgets, file dialogs, file reading and writing,
  and the JSON form of entries.
- `tests/` — tests of the library on concrete values.
