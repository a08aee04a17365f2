use rustpass::database::{create_db_with, header_line, stored_salt, unlock_db_with};
use rustpass::error::VaultError;
use rustpass::kdf::KdfParams;

fn cheap() -> KdfParams {
    KdfParams { m_cost: 8, t_cost: 1, p_cost: 1 }
}

#[test]
fn vault_params_are_the_fixed_costs() {
    let p = KdfParams::vault();
    assert_eq!((p.m_cost, p.t_cost, p.p_cost), (16000, 160, 1));
}

#[test]
fn unlock_after_create_gives_the_same_key() {
    let (text, key) = create_db_with("correct horse", &cheap()).unwrap();
    assert!(text.starts_with("$argon2d$v=19$m=8,t=1,p=1$"));
    assert!(text.ends_with('\n'));
    assert_eq!(text.matches('\n').count(), 1);
    let unlocked = unlock_db_with("correct horse", &text, &cheap()).unwrap();
    assert_eq!(unlocked, key);
}

#[test]
fn unlock_ignores_surrounding_white_space() {
    let (text, key) = create_db_with("pw", &cheap()).unwrap();
    let padded = format!("  \t{}  \r\n", text.trim_end());
    assert_eq!(unlock_db_with("pw", &padded, &cheap()).unwrap(), key);
}

#[test]
fn unlock_with_wrong_password_is_refused() {
    let (text, _) = create_db_with("right", &cheap()).unwrap();
    assert_eq!(unlock_db_with("wrong", &text, &cheap()), Err(VaultError::InvalidPassword));
}

#[test]
fn unlock_of_garbage_header_is_refused() {
    assert_eq!(unlock_db_with("pw", "not a hash", &cheap()), Err(VaultError::InvalidHashFormat));
    assert_eq!(unlock_db_with("pw", "", &cheap()), Err(VaultError::InvalidHashFormat));
}

#[test]
fn two_databases_get_different_salts_and_keys() {
    let (t1, k1) = create_db_with("pw", &cheap()).unwrap();
    let (t2, k2) = create_db_with("pw", &cheap()).unwrap();
    assert_ne!(t1, t2);
    assert_ne!(k1, k2);
}

#[test]
fn key_depends_on_the_password() {
    let (t1, k1) = create_db_with("a", &cheap()).unwrap();
    let (_, k2) = create_db_with("b", &cheap()).unwrap();
    assert_ne!(k1, k2);
    assert_ne!(k1, [0u8; 32]);
    assert_eq!(unlock_db_with("a", &t1, &cheap()).unwrap(), k1);
}

#[test]
fn stored_salt_decides_in_order() {
    assert_eq!(stored_salt(None, true), Err(VaultError::InvalidHashFormat));
    assert_eq!(stored_salt(Some(Some("c2FsdA".to_string())), false), Err(VaultError::InvalidPassword));
    assert_eq!(stored_salt(Some(None), false), Err(VaultError::InvalidPassword));
    assert_eq!(stored_salt(Some(None), true), Err(VaultError::NoSaltInHash));
    assert_eq!(stored_salt(Some(Some("c2FsdA".to_string())), true), Ok("c2FsdA".to_string()));
}

#[test]
fn header_line_adds_a_newline() {
    assert_eq!(header_line("$argon2d$x".to_string()), "$argon2d$x\n");
}
