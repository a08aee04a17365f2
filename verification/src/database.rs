use vstd::prelude::*;
use vstd::utf8::encode_utf8;
use crate::aead::{
    chacha20poly1305_open, chacha20poly1305_seal, open, random_nonce, seal, seal_accepts_len,
    TAG_LEN,
};
use crate::entry::EncryptedEntry;
use crate::hex_text::hex_encode_spec;
use crate::error::VaultError;
use crate::kdf::{
    argon2d_key, argon2d_phc, derive_key, hash_phc, is_b64_char, is_generated_salt, phc_salt, phc_verifies,
    random_salt, read_phc_salt, verify_phc, KdfParams,
};
use crate::text::{all_visible_ascii, lemma_trim_line, trim_spec, trim_white_space};
use crate::record::{
    format_record, has_single_separator, lemma_parse_hex_line, lemma_record_round_trip, parse_record,
    parse_record_spec, record_line_spec,
};

verus! {

/// The plain value of a [`LoadedRecord`].
pub struct LoadedRecordView {
    pub plaintext: Seq<u8>,
    pub encrypted_json: Seq<u8>,
    pub nonce: Seq<u8>,
}

/// A record of the database file opened under the vault key: the plaintext
/// (an entry's JSON), and the ciphertext and nonce it was stored as.
pub struct LoadedRecord {
    pub plaintext: Vec<u8>,
    pub encrypted_json: Vec<u8>,
    pub nonce: [u8; 12],
}

impl View for LoadedRecord {
    type V = LoadedRecordView;

    open spec fn view(&self) -> LoadedRecordView {
        LoadedRecordView {
            plaintext: self.plaintext@,
            encrypted_json: self.encrypted_json@,
            nonce: self.nonce@,
        }
    }
}

/// The record line that sealing `payload` under `key` and `nonce` gives.
pub open spec fn sealed_record_line(key: Seq<u8>, nonce: Seq<u8>, payload: Seq<u8>) -> Seq<char> {
    record_line_spec(chacha20poly1305_seal(key, nonce, payload), nonce)
}

/// How a line (as UTF-8 bytes) of the database file opens under `key`:
/// `Ok(None)` for a line that is no record, the opened record, or the error.
pub open spec fn open_record_spec(key: Seq<u8>, line: Seq<u8>) -> Result<Option<LoadedRecordView>, VaultError> {
    match parse_record_spec(line) {
        Err(e) => Err(e),
        Ok(None) => Ok(None),
        Ok(Some((ciphertext, nonce))) => match chacha20poly1305_open(key, nonce, ciphertext) {
            None => Err(VaultError::DecryptionFailed),
            Some(plaintext) => Ok(
                Some(LoadedRecordView { plaintext, encrypted_json: ciphertext, nonce }),
            ),
        },
    }
}

/// Opens the record lines `lines` in order, skipping lines that are no
/// record; the first error stops the reading.
pub open spec fn open_lines_spec(key: Seq<u8>, lines: Seq<Seq<u8>>) -> Result<Seq<LoadedRecordView>, VaultError>
    decreases lines.len(),
{
    if lines.len() == 0 {
        Ok(Seq::empty())
    } else {
        match open_lines_spec(key, lines.drop_last()) {
            Err(e) => Err(e),
            Ok(prev) => match open_record_spec(key, lines.last()) {
                Err(e) => Err(e),
                Ok(None) => Ok(prev),
                Ok(Some(r)) => Ok(prev.push(r)),
            },
        }
    }
}

/// The UTF-8 bytes of each line.
pub open spec fn lines_bytes(lines: Seq<String>) -> Seq<Seq<u8>> {
    lines.map_values(|l: String| encode_utf8(l@))
}

/// What reading the database file `lines` under `key` gives: the first line
/// (the password hash) is skipped, the others are opened as records.
pub open spec fn decrypt_entries_spec(key: Seq<u8>, lines: Seq<String>) -> Result<Seq<LoadedRecordView>, VaultError> {
    if lines.len() == 0 {
        Ok(Seq::empty())
    } else {
        open_lines_spec(key, lines_bytes(lines).drop_first())
    }
}

/// The plain value of a list of loaded records.
pub open spec fn records_view(records: Seq<LoadedRecord>) -> Seq<LoadedRecordView> {
    records.map_values(|r: LoadedRecord| r@)
}

/// Seals `payload` (an entry's JSON) under `key` and `nonce` and writes its record line.
pub fn seal_record(key: &[u8; 32], nonce: &[u8; 12], payload: &[u8]) -> (res: Result<String, VaultError>)
    ensures
        res is Ok <==> seal_accepts_len(payload@.len()),
        res is Err ==> res == Err::<String, VaultError>(VaultError::PayloadTooLong),
        res matches Ok(line) ==> line@ == sealed_record_line(key@, nonce@, payload@),
        res matches Ok(line) ==> line@.len() == 2 * (payload@.len() + TAG_LEN) + 25,
        res matches Ok(line) ==> open_record_spec(key@, encode_utf8(line@)) == Ok::<
            Option<LoadedRecordView>,
            VaultError,
        >(
            Some(
                LoadedRecordView {
                    plaintext: payload@,
                    encrypted_json: chacha20poly1305_seal(key@, nonce@, payload@),
                    nonce: nonce@,
                },
            ),
        ),
{
    match seal(key, nonce, payload) {
        None => Err(VaultError::PayloadTooLong),
        Some(ciphertext) => {
            let line = format_record(ciphertext.as_slice(), nonce);
            proof {
                lemma_record_round_trip(ciphertext@, nonce@);
            }
            Ok(line)
        },
    }
}

/// Seals `payload` under `key` with a fresh random nonce and writes its record line.
pub fn new_record(key: &[u8; 32], payload: &[u8]) -> (res: Result<String, VaultError>)
    ensures
        res is Ok <==> seal_accepts_len(payload@.len()),
        res is Err ==> res == Err::<String, VaultError>(VaultError::PayloadTooLong),
        res matches Ok(line) ==> exists|nonce: Seq<u8>|
            nonce.len() == 12 && line@ == #[trigger] sealed_record_line(key@, nonce, payload@),
        res matches Ok(line) ==> line@.len() == 2 * (payload@.len() + TAG_LEN) + 25,
        res matches Ok(line) ==> (open_record_spec(key@, encode_utf8(line@)) matches Ok(Some(r))
            && r.plaintext == payload@),
{
    let nonce = random_nonce();
    seal_record(key, &nonce, payload)
}

/// Reads one line of the database file as a record and opens it under `key`.
pub fn open_record(key: &[u8; 32], line: &str) -> (res: Result<Option<LoadedRecord>, VaultError>)
    ensures
        match res {
            Ok(Some(r)) => open_record_spec(key@, encode_utf8(line@)) == Ok::<
                Option<LoadedRecordView>,
                VaultError,
            >(Some(r@)),
            Ok(None) => open_record_spec(key@, encode_utf8(line@)) == Ok::<
                Option<LoadedRecordView>,
                VaultError,
            >(None),
            Err(e) => open_record_spec(key@, encode_utf8(line@)) == Err::<
                Option<LoadedRecordView>,
                VaultError,
            >(e),
        },
{
    match parse_record(line) {
        Err(e) => Err(e),
        Ok(None) => Ok(None),
        Ok(Some((ciphertext, nonce))) => {
            let opened = open(key, &nonce, ciphertext.as_slice());
            match record_from_opening(ciphertext, nonce, opened) {
                Ok(r) => Ok(Some(r)),
                Err(e) => Err(e),
            }
        },
    }
}

/// The record that a ciphertext and its nonce stand for, given what opening
/// them gave: the plaintext, or `None` when the tag did not authenticate them.
pub fn record_from_opening(ciphertext: Vec<u8>, nonce: [u8; 12], opened: Option<Vec<u8>>) -> (res: Result<LoadedRecord, VaultError>)
    ensures
        match opened {
            None => res is Err && res->Err_0 == VaultError::DecryptionFailed,
            Some(p) => res is Ok && res->Ok_0@ == (LoadedRecordView {
                plaintext: p@,
                encrypted_json: ciphertext@,
                nonce: nonce@,
            }),
        },
{
    match opened {
        None => Err(VaultError::DecryptionFailed),
        Some(plaintext) => Ok(LoadedRecord { plaintext, encrypted_json: ciphertext, nonce }),
    }
}

/// Reads the lines of a database file under `key`: the first line (the
/// password hash) is skipped, every other line that is a record is opened,
/// in order.
pub fn decrypt_entries(key: &[u8; 32], lines: &Vec<String>) -> (res: Result<Vec<LoadedRecord>, VaultError>)
    ensures
        match res {
            Ok(records) => decrypt_entries_spec(key@, lines@) == Ok::<
                Seq<LoadedRecordView>,
                VaultError,
            >(records_view(records@)),
            Err(e) => decrypt_entries_spec(key@, lines@) == Err::<Seq<LoadedRecordView>, VaultError>(e),
        },
        res matches Ok(records) ==> (lines@.len() >= 1 ==> records@.len() == record_line_count(
            lines_bytes(lines@).drop_first(),
        )),
        res matches Ok(records) ==> forall|j: int|
            0 <= j < records@.len() ==> chacha20poly1305_open(
                key@,
                (#[trigger] records@[j]).nonce@,
                records@[j].encrypted_json@,
            ) == Some(records@[j].plaintext@),
{
    proof {
        if lines@.len() >= 1 && decrypt_entries_spec(key@, lines@) is Ok {
            lemma_read_lists_every_record(key@, lines@);
        }
    }
    let mut out: Vec<LoadedRecord> = Vec::new();
    let n = lines.len();
    if n == 0 {
        assert(records_view(out@) =~= Seq::<LoadedRecordView>::empty());
        return Ok(out);
    }
    let ghost all = lines_bytes(lines@).drop_first();
    let mut i: usize = 1;
    assert(all.subrange(0, 0) =~= Seq::<Seq<u8>>::empty());
    assert(records_view(out@) =~= Seq::<LoadedRecordView>::empty());
    while i < n
        invariant
            n == lines@.len(),
            1 <= i <= n,
            all == lines_bytes(lines@).drop_first(),
            open_lines_spec(key@, all.subrange(0, i - 1)) == Ok::<Seq<LoadedRecordView>, VaultError>(
                records_view(out@),
            ),
        decreases n - i,
    {
        let opened = open_record(key, lines[i].as_str());
        proof {
            assert(all.subrange(0, i as int).drop_last() =~= all.subrange(0, i - 1));
            assert(all.subrange(0, i as int).last() == encode_utf8(lines@[i as int]@));
        }
        match opened {
            Err(e) => {
                proof {
                    lemma_open_lines_error_sticks(key@, all, i as int, e);
                }
                return Err(e);
            },
            Ok(None) => {},
            Ok(Some(r)) => {
                let ghost before = out@;
                let ghost rv = r@;
                out.push(r);
                assert(records_view(out@) =~= records_view(before).push(rv));
            },
        }
        i = i + 1;
    }
    assert(all.subrange(0, n - 1) =~= all);
    proof {
        assert forall|j: int| 0 <= j < out@.len() implies chacha20poly1305_open(
            key@,
            (#[trigger] out@[j]).nonce@,
            out@[j].encrypted_json@,
        ) == Some(out@[j].plaintext@) by {
            assert(records_view(out@)[j] == out@[j]@);
        }
    }
    Ok(out)
}

/// An error met while opening a prefix of the lines is the error of all of them.
proof fn lemma_open_lines_error_sticks(key: Seq<u8>, lines: Seq<Seq<u8>>, i: int, e: VaultError)
    requires
        1 <= i <= lines.len(),
        open_lines_spec(key, lines.subrange(0, i)) == Err::<Seq<LoadedRecordView>, VaultError>(e),
    ensures
        open_lines_spec(key, lines) == Err::<Seq<LoadedRecordView>, VaultError>(e),
    decreases lines.len() - i,
{
    if i < lines.len() {
        assert(lines.subrange(0, i + 1).drop_last() =~= lines.subrange(0, i));
        lemma_open_lines_error_sticks(key, lines, i + 1, e);
    } else {
        assert(lines.subrange(0, i) =~= lines);
    }
}

/// Opens the sealed JSON of a listed entry under `key`.
pub fn open_entry_payload(key: &[u8; 32], entry: &EncryptedEntry) -> (res: Result<Vec<u8>, VaultError>)
    ensures
        match res {
            Ok(p) => chacha20poly1305_open(key@, entry.nonce@, entry.encrypted_json@) == Some(p@),
            Err(e) => chacha20poly1305_open(key@, entry.nonce@, entry.encrypted_json@) is None
                && e == VaultError::DecryptionFailed,
        },
{
    match open(key, &entry.nonce, entry.encrypted_json.as_slice()) {
        Some(p) => Ok(p),
        None => Err(VaultError::DecryptionFailed),
    }
}

/// The outcome of unlocking a vault whose file starts with `first_line` with
/// the password bytes `password`: the stored hash (the trimmed line) must be a
/// PHC string that verifies the password and holds a salt; the key is then
/// Argon2d of the password with the salt text's bytes.
pub open spec fn unlock_spec(password: Seq<u8>, first_line: Seq<char>, params: KdfParams) -> Result<Seq<u8>, VaultError> {
    let phc = trim_spec(first_line);
    match phc_salt(phc) {
        None => Err(VaultError::InvalidHashFormat),
        Some(salt) => if !phc_verifies(phc, password) {
            Err(VaultError::InvalidPassword)
        } else {
            match salt {
                None => Err(VaultError::NoSaltInHash),
                Some(s) => if password.len() <= 0xffff_ffff && 8 <= encode_utf8(s).len() <= 0xffff_ffff {
                    Ok(argon2d_key(password, encode_utf8(s), params.m_cost, params.t_cost, params.p_cost))
                } else {
                    Err(VaultError::KeyDerivationFailed)
                },
            }
        },
    }
}

/// The plain value of a key result.
pub open spec fn key_result_view(r: Result<[u8; 32], VaultError>) -> Result<Seq<u8>, VaultError> {
    match r {
        Ok(k) => Ok(k@),
        Err(e) => Err(e),
    }
}

/// Derives the vault key from `password` and the first line of the database
/// file (the stored password hash), with the Argon2 parameters `params`.
pub fn unlock_db_with(password: &str, first_line: &str, params: &KdfParams) -> (res: Result<[u8; 32], VaultError>)
    requires
        params.valid(),
    ensures
        key_result_view(res) == unlock_spec(encode_utf8(password@), first_line@, *params),
        res matches Err(e) ==> e != VaultError::KeyDerivationFailed && e != VaultError::NoSaltInHash,
        res is Ok ==> phc_verifies(trim_spec(first_line@), encode_utf8(password@)),
        res matches Ok(k) ==> (phc_salt(trim_spec(first_line@)) matches Some(Some(s)) && k@ == argon2d_key(
            encode_utf8(password@),
            encode_utf8(s),
            params.m_cost,
            params.t_cost,
            params.p_cost,
        )),
{
    let phc = trim_white_space(first_line);
    let pw = password.as_bytes();
    let parsed = read_phc_salt(phc);
    let verified = match parsed {
        None => false,
        Some(_) => verify_phc(pw, phc),
    };
    let salt = stored_salt(parsed, verified)?;
    match derive_key(pw, salt.as_str().as_bytes(), params) {
        Some(key) => Ok(key),
        None => Err(VaultError::KeyDerivationFailed),
    }
}

/// Decides, from how the stored hash was read (`None` when it is no PHC
/// string, else its salt field) and whether it verified the password, which
/// salt the key is derived with, or why the vault stays locked.
pub fn stored_salt(parsed: Option<Option<String>>, verified: bool) -> (res: Result<String, VaultError>)
    ensures
        match parsed {
            None => res == Err::<String, VaultError>(VaultError::InvalidHashFormat),
            Some(field) => if !verified {
                res == Err::<String, VaultError>(VaultError::InvalidPassword)
            } else {
                match field {
                    None => res == Err::<String, VaultError>(VaultError::NoSaltInHash),
                    Some(salt) => res matches Ok(s) && s@ == salt@,
                }
            },
        },
{
    match parsed {
        None => Err(VaultError::InvalidHashFormat),
        Some(field) => {
            if !verified {
                return Err(VaultError::InvalidPassword);
            }
            match field {
                None => Err(VaultError::NoSaltInHash),
                Some(salt) => Ok(salt),
            }
        },
    }
}

/// Derives the vault key from `password` and the first line of the database
/// file, with the vault's Argon2 parameters.
pub fn unlock_db(password: &str, first_line: &str) -> (res: Result<[u8; 32], VaultError>)
    ensures
        key_result_view(res) == unlock_spec(encode_utf8(password@), first_line@, KdfParams::vault_spec()),
        res matches Err(e) ==> e != VaultError::KeyDerivationFailed && e != VaultError::NoSaltInHash,
        res is Ok ==> phc_verifies(trim_spec(first_line@), encode_utf8(password@)),
        res matches Ok(k) ==> (phc_salt(trim_spec(first_line@)) matches Some(Some(s)) && k@ == argon2d_key(
            encode_utf8(password@),
            encode_utf8(s),
            16000,
            160,
            1,
        )),
{
    let params = KdfParams::vault();
    unlock_db_with(password, first_line, &params)
}

/// `text` and `key` are what creating a vault for the password bytes
/// `password` with these Argon2d costs gives, for some generated salt (the
/// 22-character B64 text of 16 bytes): the
/// PHC hash of the password and a newline, and Argon2d of the password with
/// the salt text's bytes.
pub open spec fn is_created_vault(password: Seq<u8>, text: Seq<char>, key: Seq<u8>, m_cost: u32, t_cost: u32, p_cost: u32) -> bool {
    exists|salt: Seq<char>|
        is_generated_salt(salt) && salt.len() == 22 && (forall|i: int| 0 <= i < 22 ==> is_b64_char(#[trigger] salt[i])) && text
            == #[trigger] argon2d_phc(password, salt, m_cost, t_cost, p_cost).push('\n') && key
            == argon2d_key(password, encode_utf8(salt), m_cost, t_cost, p_cost)
}

/// Makes a new database for `password` with the Argon2 parameters `params`:
/// a random salt, the PHC hash of the password written as the file's first
/// line, and the key derived from the password and the salt.
pub fn create_db_with(password: &str, params: &KdfParams) -> (res: Result<(String, [u8; 32]), VaultError>)
    requires
        params.valid(),
    ensures
        res matches Ok((text, key)) ==> is_created_vault(
            encode_utf8(password@),
            text@,
            key@,
            params.m_cost,
            params.t_cost,
            params.p_cost,
        ),
        res matches Ok((text, key)) ==> text@.len() > 0 && text@.last() == '\n' && all_visible_ascii(
            text@.drop_last(),
        ),
        res matches Ok((text, key)) ==> unlock_spec(encode_utf8(password@), text@, *params) == Ok::<
            Seq<u8>,
            VaultError,
        >(key@),
        res is Ok <==> encode_utf8(password@).len() <= 0xffff_ffff,
        res matches Err(e) ==> e == VaultError::HashingFailed,
        res matches Ok((text, key)) ==> (phc_salt(trim_spec(text@)) matches Some(Some(s)) && key@
            == argon2d_key(encode_utf8(password@), encode_utf8(s), params.m_cost, params.t_cost, params.p_cost)),
        res matches Ok((text, key)) ==> phc_verifies(trim_spec(text@), encode_utf8(password@)),
{
    let salt = random_salt();
    let pw = password.as_bytes();
    let phc = match hash_phc(pw, salt.as_str(), params) {
        Some(h) => h,
        None => {
            return Err(VaultError::HashingFailed);
        },
    };
    proof {
        vstd::utf8::is_ascii_chars_encode_utf8(salt@);
    }
    let key = match derive_key(pw, salt.as_str().as_bytes(), params) {
        Some(k) => k,
        None => {
            return Err(VaultError::KeyDerivationFailed);
        },
    };
    proof {
        lemma_trim_line(phc@);
    }
    let text = header_line(phc);
    assert(text@.drop_last() =~= phc@);
    Ok((text, key))
}

/// The first line of a database file: the stored password hash and a newline.
pub fn header_line(phc: String) -> (res: String)
    ensures
        res@ == phc@.push('\n'),
{
    let mut text = phc;
    let newline = "\n";
    proof {
        reveal_strlit("\n");
    }
    text.append(newline);
    assert(text@ =~= phc@.push('\n'));
    text
}

/// Makes a new database for `password` with the vault's Argon2 parameters.
pub fn create_db(password: &str) -> (res: Result<(String, [u8; 32]), VaultError>)
    ensures
        res matches Ok((text, key)) ==> is_created_vault(encode_utf8(password@), text@, key@, 16000, 160, 1),
        res matches Ok((text, key)) ==> unlock_spec(encode_utf8(password@), text@, KdfParams::vault_spec())
            == Ok::<Seq<u8>, VaultError>(key@),
        res is Ok <==> encode_utf8(password@).len() <= 0xffff_ffff,
        res matches Err(e) ==> e == VaultError::HashingFailed,
        res matches Ok((text, key)) ==> (phc_salt(trim_spec(text@)) matches Some(Some(s)) && key@
            == argon2d_key(encode_utf8(password@), encode_utf8(s), 16000, 160, 1)),
        res matches Ok((text, key)) ==> phc_verifies(trim_spec(text@), encode_utf8(password@)),
{
    let params = KdfParams::vault();
    create_db_with(password, &params)
}

/// The record that a line opens to under `key`, for a line that is a record.
pub open spec fn opened_record(key: Seq<u8>, line: Seq<u8>) -> LoadedRecordView {
    match open_record_spec(key, line) {
        Ok(Some(r)) => r,
        _ => arbitrary(),
    }
}

/// Every line opens under `key` as a record (none is skipped, none fails).
pub open spec fn all_records(key: Seq<u8>, lines: Seq<Seq<u8>>) -> bool {
    forall|i: int| 0 <= i < lines.len() ==> (#[trigger] open_record_spec(key, lines[i])) is Ok
        && open_record_spec(key, lines[i])->Ok_0 is Some
}

/// Lines that all open as records give their records, one per line, in order.
pub proof fn lemma_open_all_records(key: Seq<u8>, lines: Seq<Seq<u8>>)
    requires
        all_records(key, lines),
    ensures
        open_lines_spec(key, lines) == Ok::<Seq<LoadedRecordView>, VaultError>(
            Seq::new(lines.len(), |i: int| opened_record(key, lines[i])),
        ),
    decreases lines.len(),
{
    if lines.len() > 0 {
        let prefix = lines.drop_last();
        assert forall|i: int| 0 <= i < prefix.len() implies (#[trigger] open_record_spec(key, prefix[i])) is Ok
            && open_record_spec(key, prefix[i])->Ok_0 is Some by {
            assert(prefix[i] == lines[i]);
        }
        lemma_open_all_records(key, prefix);
        assert(open_record_spec(key, lines[lines.len() - 1]) is Ok);
        assert(open_record_spec(key, lines.last()) == Ok::<Option<LoadedRecordView>, VaultError>(
            Some(opened_record(key, lines.last())),
        ));
        assert(Seq::new(prefix.len(), |i: int| opened_record(key, prefix[i])).push(
            opened_record(key, lines.last()),
        ) =~= Seq::new(lines.len(), |i: int| opened_record(key, lines[i])));
    } else {
        assert(Seq::new(lines.len(), |i: int| opened_record(key, lines[i])) =~= Seq::<
            LoadedRecordView,
        >::empty());
    }
}

/// Appending to the database file a line that opens under the vault key as
/// the record `r` adds `r` at the end of what reading the file gives.
pub proof fn lemma_append_record(key: Seq<u8>, lines: Seq<String>, line: String, r: LoadedRecordView)
    requires
        lines.len() >= 1,
        decrypt_entries_spec(key, lines) is Ok,
        open_record_spec(key, encode_utf8(line@)) == Ok::<Option<LoadedRecordView>, VaultError>(Some(r)),
    ensures
        decrypt_entries_spec(key, lines.push(line)) == Ok::<Seq<LoadedRecordView>, VaultError>(
            decrypt_entries_spec(key, lines)->Ok_0.push(r),
        ),
{
    let before = lines_bytes(lines).drop_first();
    let after = lines_bytes(lines.push(line)).drop_first();
    assert(after.drop_last() =~= before);
    assert(after.last() == encode_utf8(line@));
}

/// In a database file whose lines after the password hash are all records
/// under the vault key, putting in line `index + 1` a line that opens as the
/// record `r` changes what reading the file gives at `index` only, to `r`.
pub proof fn lemma_update_record(key: Seq<u8>, lines: Seq<String>, index: int, line: String, r: LoadedRecordView)
    requires
        0 <= index && index + 1 < lines.len(),
        all_records(key, lines_bytes(lines).drop_first()),
        open_record_spec(key, encode_utf8(line@)) == Ok::<Option<LoadedRecordView>, VaultError>(Some(r)),
    ensures
        decrypt_entries_spec(key, lines.update(index + 1, line)) == Ok::<Seq<LoadedRecordView>, VaultError>(
            decrypt_entries_spec(key, lines)->Ok_0.update(index, r),
        ),
{
    let before = lines_bytes(lines).drop_first();
    let after = lines_bytes(lines.update(index + 1, line)).drop_first();
    assert(after =~= before.update(index, encode_utf8(line@)));
    assert forall|i: int| 0 <= i < after.len() implies (#[trigger] open_record_spec(key, after[i])) is Ok
        && open_record_spec(key, after[i])->Ok_0 is Some by {
        if i != index {
            assert(after[i] == before[i]);
        }
    }
    lemma_open_all_records(key, before);
    lemma_open_all_records(key, after);
    assert(Seq::new(after.len(), |i: int| opened_record(key, after[i])) =~= Seq::new(
        before.len(),
        |i: int| opened_record(key, before[i]),
    ).update(index, r));
}

/// A vault unlocks only with a password that its stored hash verifies.
pub proof fn lemma_unlock_needs_verified_password(password: Seq<u8>, first_line: Seq<char>, params: KdfParams)
    requires
        unlock_spec(password, first_line, params) is Ok,
    ensures
        phc_verifies(trim_spec(first_line), password),
{
}

/// A vault that unlocks gives as key Argon2d of the password bytes with the
/// bytes of the salt text written in the stored hash (the trimmed first line),
/// with the given costs; the stored hash verifies the password.
pub proof fn lemma_unlock_key_is_argon2d_of_stored_salt(password: Seq<u8>, first_line: Seq<char>, params: KdfParams)
    requires
        unlock_spec(password, first_line, params) is Ok,
    ensures
        phc_verifies(trim_spec(first_line), password),
        phc_salt(trim_spec(first_line)) matches Some(Some(s)) && unlock_spec(password, first_line, params)
            == Ok::<Seq<u8>, VaultError>(
            argon2d_key(password, encode_utf8(s), params.m_cost, params.t_cost, params.p_cost),
        ),
{
}

/// How many of `lines` split into two parts at `:`: the lines that read as
/// records (the others are skipped).
pub open spec fn record_line_count(lines: Seq<Seq<u8>>) -> nat
    decreases lines.len(),
{
    if lines.len() == 0 {
        0
    } else {
        record_line_count(lines.drop_last()) + if has_single_separator(lines.last()) {
            1nat
        } else {
            0nat
        }
    }
}

/// Opening lines that succeeds gives one record for every line that splits at
/// `:`, and each record's ciphertext opens under `key` to its plaintext.
proof fn lemma_open_lines_complete(key: Seq<u8>, lines: Seq<Seq<u8>>)
    requires
        open_lines_spec(key, lines) is Ok,
    ensures
        open_lines_spec(key, lines)->Ok_0.len() == record_line_count(lines),
        forall|j: int|
            0 <= j < open_lines_spec(key, lines)->Ok_0.len() ==> {
                let r = #[trigger] open_lines_spec(key, lines)->Ok_0[j];
                chacha20poly1305_open(key, r.nonce, r.encrypted_json) == Some(r.plaintext)
            },
    decreases lines.len(),
{
    if lines.len() > 0 {
        lemma_open_lines_complete(key, lines.drop_last());
        let prev = open_lines_spec(key, lines.drop_last())->Ok_0;
        let all = open_lines_spec(key, lines)->Ok_0;
        match open_record_spec(key, lines.last()) {
            Ok(Some(r)) => {
                assert(has_single_separator(lines.last()));
                assert forall|j: int| 0 <= j < all.len() implies {
                    let x = #[trigger] all[j];
                    chacha20poly1305_open(key, x.nonce, x.encrypted_json) == Some(x.plaintext)
                } by {
                    if j < prev.len() {
                        assert(all[j] == prev[j]);
                    }
                }
            },
            _ => {
                assert(!has_single_separator(lines.last()));
            },
        }
    }
}

/// Reading a vault that succeeds lists a record for every line after the
/// first that splits at `:` (none is dropped), in a list as long as the number
/// of such lines; every listed ciphertext opens under the key to the listed
/// plaintext.
pub proof fn lemma_read_lists_every_record(key: Seq<u8>, lines: Seq<String>)
    requires
        lines.len() >= 1,
        decrypt_entries_spec(key, lines) is Ok,
    ensures
        decrypt_entries_spec(key, lines)->Ok_0.len() == record_line_count(lines_bytes(lines).drop_first()),
        forall|j: int|
            0 <= j < decrypt_entries_spec(key, lines)->Ok_0.len() ==> {
                let r = #[trigger] decrypt_entries_spec(key, lines)->Ok_0[j];
                chacha20poly1305_open(key, r.nonce, r.encrypted_json) == Some(r.plaintext)
            },
{
    lemma_open_lines_complete(key, lines_bytes(lines).drop_first());
}

/// In a vault file whose lines before line `i` read without error, a line `i`
/// (after the password hash) that is `hex(ciphertext):hex(nonce)` with a
/// ciphertext that does not open under the key makes reading the file fail
/// with `DecryptionFailed`: such a record is never skipped.
pub proof fn lemma_undecryptable_record_fails_read(
    key: Seq<u8>,
    lines: Seq<String>,
    i: int,
    ciphertext: Seq<u8>,
    nonce: Seq<u8>,
)
    requires
        1 <= i < lines.len(),
        nonce.len() == 12,
        lines[i]@ == hex_encode_spec(ciphertext) + seq![':'] + hex_encode_spec(nonce),
        chacha20poly1305_open(key, nonce, ciphertext) is None,
        decrypt_entries_spec(key, lines.subrange(0, i)) is Ok,
    ensures
        decrypt_entries_spec(key, lines) == Err::<Seq<LoadedRecordView>, VaultError>(VaultError::DecryptionFailed),
{
    let all = lines_bytes(lines).drop_first();
    let prefix = lines.subrange(0, i);
    assert(lines_bytes(prefix).drop_first() =~= all.subrange(0, i - 1));
    assert(all.subrange(0, i).drop_last() =~= all.subrange(0, i - 1));
    assert(all.subrange(0, i).last() == encode_utf8(lines[i]@));
    lemma_parse_hex_line(ciphertext, nonce);
    assert(open_record_spec(key, encode_utf8(lines[i]@)) == Err::<Option<LoadedRecordView>, VaultError>(
        VaultError::DecryptionFailed,
    ));
    lemma_open_lines_error_sticks(key, all, i, VaultError::DecryptionFailed);
}

} // verus!
