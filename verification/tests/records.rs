use rustpass::database::{decrypt_entries, new_record, open_entry_payload, open_record, record_from_opening, seal_record};
use rustpass::entry::EncryptedEntry;
use rustpass::error::VaultError;

use rustpass::record::{format_record, parse_record};

const KEY: [u8; 32] = [7u8; 32];
const OTHER_KEY: [u8; 32] = [9u8; 32];
const NONCE: [u8; 12] = [0, 1, 2, 3, 4, 5, 6, 7, 8, 9, 10, 11];

#[test]
fn format_record_writes_lowercase_hex_fields() {
    let line = format_record(&[0xde, 0xad, 0x0f], &NONCE);
    assert_eq!(line, "dead0f:000102030405060708090a0b");
}

#[test]
fn format_record_of_empty_ciphertext() {
    let line = format_record(&[], &[0xffu8; 12]);
    assert_eq!(line, ":ffffffffffffffffffffffff");
}

#[test]
fn parse_record_reads_both_fields() {
    let parsed = parse_record("dead0f:000102030405060708090a0b").unwrap().unwrap();
    assert_eq!(parsed.0, vec![0xde, 0xad, 0x0f]);
    assert_eq!(parsed.1, NONCE);
}

#[test]
fn parse_record_accepts_upper_case_hex() {
    let parsed = parse_record("DEAD0F:000102030405060708090A0B").unwrap().unwrap();
    assert_eq!(parsed.0, vec![0xde, 0xad, 0x0f]);
    assert_eq!(parsed.1, NONCE);
}

#[test]
fn parse_record_skips_lines_without_exactly_one_separator() {
    assert!(parse_record("no separator here").unwrap().is_none());
    assert!(parse_record("aa:bb:cc").unwrap().is_none());
    assert!(parse_record("").unwrap().is_none());
    assert!(parse_record("::").unwrap().is_none());
}

#[test]
fn parse_record_rejects_bad_payload_hex() {
    assert_eq!(parse_record("zz:000102030405060708090a0b"), Err(VaultError::InvalidPayloadHex));
    assert_eq!(parse_record("abc:000102030405060708090a0b"), Err(VaultError::InvalidPayloadHex));
}

#[test]
fn parse_record_rejects_bad_nonce_hex() {
    assert_eq!(parse_record("00:0001020304050607080g0a0b"), Err(VaultError::InvalidNonceHex));
    assert_eq!(parse_record("00:"), Err(VaultError::InvalidNonceLength));
}

#[test]
fn parse_record_rejects_short_nonce() {
    assert_eq!(parse_record("00:0001"), Err(VaultError::InvalidNonceLength));
}

#[test]
fn parse_record_checks_payload_before_nonce() {
    assert_eq!(parse_record("0g:zz"), Err(VaultError::InvalidPayloadHex));
}

#[test]
fn seal_record_round_trips_through_open_record() {
    let payload = br#"{"title":"mail","password":"hunter2"}"#;
    let line = seal_record(&KEY, &NONCE, payload).unwrap();
    let rec = open_record(&KEY, &line).unwrap().unwrap();
    assert_eq!(rec.plaintext, payload.to_vec());
    assert_eq!(rec.nonce, NONCE);
    assert_eq!(rec.encrypted_json.len(), payload.len() + 16);
    assert_ne!(&rec.encrypted_json[..payload.len()], &payload[..]);
    assert!(line.ends_with(":000102030405060708090a0b"));
    assert_eq!(line.len(), 2 * (payload.len() + 16) + 1 + 24);
}

#[test]
fn seal_record_is_deterministic_for_a_nonce() {
    let a = seal_record(&KEY, &NONCE, b"abc").unwrap();
    let b = seal_record(&KEY, &NONCE, b"abc").unwrap();
    assert_eq!(a, b);
    let c = seal_record(&OTHER_KEY, &NONCE, b"abc").unwrap();
    assert_ne!(a, c);
}

#[test]
fn seal_record_of_empty_payload_is_the_tag() {
    let line = seal_record(&KEY, &NONCE, b"").unwrap();
    assert_eq!(line.len(), 32 + 1 + 24);
    assert!(open_record(&KEY, &line).unwrap().unwrap().plaintext.is_empty());
}

#[test]
fn open_record_with_another_key_fails() {
    let line = seal_record(&KEY, &NONCE, b"secret").unwrap();
    assert!(matches!(open_record(&OTHER_KEY, &line), Err(VaultError::DecryptionFailed)));
}

#[test]
fn open_record_of_tampered_line_fails() {
    let line = seal_record(&KEY, &NONCE, b"secret").unwrap();
    let mut bytes = line.into_bytes();
    bytes[0] = if bytes[0] == b'0' { b'1' } else { b'0' };
    let tampered = String::from_utf8(bytes).unwrap();
    assert!(matches!(open_record(&KEY, &tampered), Err(VaultError::DecryptionFailed)));
}

#[test]
fn open_record_of_short_ciphertext_fails() {
    assert!(matches!(open_record(&KEY, "00:000102030405060708090a0b"), Err(VaultError::DecryptionFailed)));
}

#[test]
fn open_record_skips_plain_lines() {
    assert!(open_record(&KEY, "just a note").unwrap().is_none());
}

#[test]
fn new_record_uses_a_fresh_nonce() {
    let a = new_record(&KEY, b"same").unwrap();
    let b = new_record(&KEY, b"same").unwrap();
    assert_ne!(a, b);
    assert_eq!(open_record(&KEY, &a).unwrap().unwrap().plaintext, b"same".to_vec());
    assert_eq!(open_record(&KEY, &b).unwrap().unwrap().plaintext, b"same".to_vec());
}

#[test]
fn record_from_opening_maps_the_outcome() {
    let r = record_from_opening(vec![1, 2], NONCE, Some(vec![3])).unwrap();
    assert_eq!(r.plaintext, vec![3]);
    assert_eq!(r.encrypted_json, vec![1, 2]);
    assert_eq!(r.nonce, NONCE);
    assert!(matches!(record_from_opening(vec![1], NONCE, None), Err(VaultError::DecryptionFailed)));
}

#[test]
fn decrypt_entries_skips_header_and_plain_lines() {
    let r1 = seal_record(&KEY, &NONCE, b"one").unwrap();
    let r2 = seal_record(&KEY, &[1u8; 12], b"two").unwrap();
    let lines = vec![
        "$argon2d$v=19$m=16000,t=160,p=1$c2FsdHNhbHQ$aGFzaA".to_string(),
        r1,
        "not a record".to_string(),
        r2,
    ];
    let recs = decrypt_entries(&KEY, &lines).unwrap();
    assert_eq!(recs.len(), 2);
    assert_eq!(recs[0].plaintext, b"one".to_vec());
    assert_eq!(recs[1].plaintext, b"two".to_vec());
    assert_eq!(recs[1].nonce, [1u8; 12]);
}

#[test]
fn decrypt_entries_of_empty_or_header_only_file() {
    assert!(decrypt_entries(&KEY, &vec![]).unwrap().is_empty());
    assert!(decrypt_entries(&KEY, &vec!["header:line".to_string()]).unwrap().is_empty());
}

#[test]
fn decrypt_entries_never_reads_the_first_line_as_a_record() {
    let r1 = seal_record(&KEY, &NONCE, b"one").unwrap();
    let lines = vec![r1.clone(), r1];
    assert_eq!(decrypt_entries(&KEY, &lines).unwrap().len(), 1);
}

#[test]
fn decrypt_entries_stops_at_first_bad_record() {
    let r1 = seal_record(&KEY, &NONCE, b"one").unwrap();
    let bad = seal_record(&OTHER_KEY, &NONCE, b"two").unwrap();
    let lines = vec!["h".to_string(), r1, "zz:00".to_string(), bad];
    assert!(matches!(decrypt_entries(&KEY, &lines), Err(VaultError::InvalidPayloadHex)));
}

#[test]
fn appending_a_record_adds_it_last() {
    let mut lines = vec!["h".to_string(), seal_record(&KEY, &NONCE, b"one").unwrap()];
    let before = decrypt_entries(&KEY, &lines).unwrap();
    lines.push(new_record(&KEY, b"two").unwrap());
    let after = decrypt_entries(&KEY, &lines).unwrap();
    assert_eq!(after.len(), before.len() + 1);
    assert_eq!(after[0].plaintext, before[0].plaintext);
    assert_eq!(after[1].plaintext, b"two".to_vec());
}

#[test]
fn open_entry_payload_opens_a_listed_entry() {
    let rec = open_record(&KEY, &seal_record(&KEY, &NONCE, b"{}").unwrap()).unwrap().unwrap();
    let entry = EncryptedEntry::new("t".to_string(), rec.encrypted_json, rec.nonce);
    assert_eq!(open_entry_payload(&KEY, &entry).unwrap(), b"{}".to_vec());
    assert!(matches!(open_entry_payload(&OTHER_KEY, &entry), Err(VaultError::DecryptionFailed)));
}
