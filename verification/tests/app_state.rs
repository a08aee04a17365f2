use rustpass::app_state::{
    EditAction, HeaderAction, MyApp, NewDbAction, NewEntryAction, PendingStep, StartAction,
    ViewState,
};
use rustpass::database::{decrypt_entries, seal_record};
use rustpass::entry::{EncryptedEntry, Entry};
use rustpass::error::VaultError;
use rustpass::kdf::KdfParams;
use std::path::{Path, PathBuf};

fn cheap() -> KdfParams {
    KdfParams { m_cost: 8, t_cost: 1, p_cost: 1 }
}

fn unlocked_app() -> MyApp {
    let mut app = MyApp::new();
    app.key = [3u8; 32];
    app.unlocked_db = true;
    app.viewstate = ViewState::DatabaseStartMenu;
    app.file_path = Some(PathBuf::from("vault.enc"));
    app
}

#[test]
fn new_app_starts_on_the_start_menu() {
    let app = MyApp::new();
    assert_eq!(app.viewstate, ViewState::StartMenu);
    assert_eq!(app.key, [0u8; 32]);
    assert!(app.file_path.is_none());
    assert!(!app.unlocked_db && !app.pending_create && !app.pending_open);
    assert!(app.loaded_entries.is_empty());
    assert_eq!(app.new_db_page, 0);
    assert_eq!(ViewState::default(), ViewState::StartMenu);
}

#[test]
fn header_create_shows_dialog() {
    let mut app = MyApp::new();
    app.header(HeaderAction::CreateNewDatabase);
    assert!(app.show_new_db_viewport);
}

#[test]
fn header_open_records_path_and_pending_open() {
    let mut app = MyApp::new();
    app.header(HeaderAction::OpenDatabase(Some(PathBuf::from("/tmp/a.enc"))));
    assert_eq!(app.file_path.as_deref(), Some(Path::new("/tmp/a.enc")));
    assert!(app.pending_open);
    assert_eq!(app.pending_step(), PendingStep::OpenDatabase);
}

#[test]
fn header_lock_only_when_unlocked() {
    let mut app = MyApp::new();
    app.password = "typed".to_string();
    app.header(HeaderAction::LockDatabase);
    assert_eq!(app.password, "typed");
    let mut app = unlocked_app();
    app.header(HeaderAction::LockDatabase);
    assert!(!app.unlocked_db);
    assert_eq!(app.key, [0u8; 32]);
    assert!(app.file_path.is_none());
    assert_eq!(app.viewstate, ViewState::StartMenu);
}

#[test]
fn header_new_entry_only_when_unlocked() {
    let mut app = MyApp::new();
    app.header(HeaderAction::NewEntry);
    assert_eq!(app.viewstate, ViewState::StartMenu);
    let mut app = unlocked_app();
    app.header(HeaderAction::NewEntry);
    assert_eq!(app.viewstate, ViewState::NewEntry);
    app.header(HeaderAction::Quit);
    assert_eq!(app.viewstate, ViewState::NewEntry);
}

#[test]
fn start_menu_actions() {
    let mut app = MyApp::new();
    app.start_menu(StartAction::CreateNewDatabase);
    assert!(app.show_new_db_viewport);
    app.start_menu(StartAction::OpenDatabase(None));
    assert!(app.pending_open);
    assert!(app.file_path.is_none());
    assert_eq!(app.pending_step(), PendingStep::Idle);
}

#[test]
fn new_db_dialog_walks_its_pages() {
    let mut app = MyApp::new();
    assert_eq!(app.show_new_db_viewport_ui(NewDbAction::Continue), None);
    assert_eq!(app.new_db_page, 0);
    app.show_new_db_viewport = true;
    app.new_db_name = "work".to_string();
    assert_eq!(app.show_new_db_viewport_ui(NewDbAction::Done), None);
    assert_eq!(app.show_new_db_viewport_ui(NewDbAction::Continue), None);
    assert_eq!(app.new_db_page, 1);
    assert_eq!(app.show_new_db_viewport_ui(NewDbAction::Continue), None);
    assert_eq!(app.new_db_page, 1);
    app.new_db_password = "a".to_string();
    app.new_db_confirm_password = "b".to_string();
    assert_eq!(app.show_new_db_viewport_ui(NewDbAction::Done), None);
    app.new_db_confirm_password = "a".to_string();
    assert_eq!(app.show_new_db_viewport_ui(NewDbAction::Done), Some("work.enc".to_string()));
    assert_eq!(app.show_new_db_viewport_ui(NewDbAction::GoBack), None);
    assert_eq!(app.new_db_page, 0);
    app.show_new_db_viewport_ui(NewDbAction::Cancel);
    assert!(!app.show_new_db_viewport);
}

#[test]
fn new_db_dialog_closes_on_request() {
    let mut app = MyApp::new();
    app.show_new_db_viewport = true;
    app.new_db_page = 1;
    app.show_new_db_viewport_ui(NewDbAction::CloseRequested);
    assert!(!app.show_new_db_viewport);
    assert_eq!(app.new_db_page, 1);
}

#[test]
fn creating_a_database_keeps_the_key_and_resets_the_dialog() {
    let mut app = MyApp::new();
    app.show_new_db_viewport = true;
    app.new_db_name = "work".to_string();
    app.new_db_page = 1;
    app.new_db_password = "pw".to_string();
    app.new_db_confirm_password = "pw".to_string();
    app.save_path_chosen(Some(PathBuf::from("/tmp/work.enc")));
    assert_eq!(app.pending_step(), PendingStep::CreateDatabase);
    let text = app.create_database_with(&cheap()).unwrap();
    assert!(!app.pending_create && !app.show_new_db_viewport);
    assert!(app.file_path.is_none());
    assert_eq!(app.new_db_name, "");
    assert_eq!(app.new_db_password, "");
    assert_eq!(app.new_db_page, 0);
    assert_eq!(app.pending_step(), PendingStep::Idle);
    let key = app.key;
    let mut other = MyApp::new();
    other.file_picked(PathBuf::from("/tmp/work.enc"));
    other.pending_open = true;
    assert_eq!(other.pending_step(), PendingStep::OpenDatabase);
    other.open_selected_database();
    assert_eq!(other.viewstate, ViewState::UnlockDatabase);
    assert!(other.db_selected && !other.pending_open);
    other.password = "pw".to_string();
    other.unlock_db_with(&text, &cheap()).unwrap();
    assert_eq!(other.key, key);
    assert!(other.unlocked_db && !other.db_selected);
    assert_eq!(other.viewstate, ViewState::DatabaseStartMenu);
}

#[test]
fn failed_unlock_changes_nothing() {
    let mut app = MyApp::new();
    app.password = "pw".to_string();
    assert_eq!(app.unlock_db_with("garbage", &cheap()), Err(VaultError::InvalidHashFormat));
    assert!(!app.unlocked_db);
    assert_eq!(app.viewstate, ViewState::StartMenu);
}

#[test]
fn pending_create_wins_over_pending_open() {
    let mut app = MyApp::new();
    app.pending_open = true;
    app.save_path_chosen(None);
    assert_eq!(app.pending_step(), PendingStep::Idle);
    app.file_picked(PathBuf::from("x"));
    assert_eq!(app.pending_step(), PendingStep::CreateDatabase);
}

#[test]
fn reset_new_db_state_clears_the_dialog() {
    let mut app = MyApp::new();
    app.show_new_db_viewport = true;
    app.new_db_name = "n".to_string();
    app.new_db_page = 1;
    app.new_db_password = "p".to_string();
    app.new_db_confirm_password = "p".to_string();
    app.pending_create = true;
    app.file_path = Some(PathBuf::from("f"));
    app.password = "kept".to_string();
    app.reset_new_db_state();
    assert!(!app.show_new_db_viewport && !app.pending_create);
    assert!(app.file_path.is_none());
    assert_eq!(app.new_db_name, "");
    assert_eq!(app.new_db_page, 0);
    assert_eq!(app.new_db_confirm_password, "");
    assert_eq!(app.password, "kept");
}

#[test]
fn entries_are_created_listed_and_edited() {
    let mut app = unlocked_app();
    let header = "$argon2d$header".to_string();
    let line = app.create_new_entry(br#"{"title":"a","password":"1"}"#).unwrap();
    let mut lines = vec![header, line];
    app.new_entry = Entry::new("a".to_string(), "1".to_string());
    app.new_entry(NewEntryAction::Create);
    assert_eq!(app.new_entry.title, "");
    assert_eq!(app.new_entry.password, "");
    assert_eq!(app.viewstate, ViewState::DatabaseStartMenu);
    let recs = app.decrypt_all_entries(&lines).unwrap();
    assert_eq!(recs.len(), 1);
    for r in recs {
        app.push_loaded_entry(EncryptedEntry::new("a".to_string(), r.encrypted_json, r.nonce));
    }
    assert_eq!(app.loaded_entries.len(), 1);
    assert_eq!(app.encrypted_payload_to_entry(0).unwrap(), br#"{"title":"a","password":"1"}"#.to_vec());
    app.load_entry_listing(0);
    assert_eq!(app.viewstate, ViewState::FullEntry);
    assert_eq!(app.full_entry_index, 0);
    app.load_entry_for_edit(Entry::new("a".to_string(), "1".to_string()));
    assert!(app.entry_loaded_for_edit);
    app.load_edit_entry(EditAction::TogglePassword);
    assert!(app.show_password);
    app.update_entry(0, br#"{"title":"a","password":"2"}"#, &mut lines).unwrap();
    assert_eq!(lines.len(), 2);
    assert_eq!(lines[0], "$argon2d$header");
    app.load_edit_entry(EditAction::Change);
    assert!(app.loaded_entries.is_empty());
    assert!(!app.entry_loaded_for_edit);
    assert_eq!(app.viewstate, ViewState::DatabaseStartMenu);
    let recs = decrypt_entries(&app.key, &lines).unwrap();
    assert_eq!(recs[0].plaintext, br#"{"title":"a","password":"2"}"#.to_vec());
}

#[test]
fn edit_cancel_wipes_and_hides() {
    let mut app = unlocked_app();
    app.new_entry = Entry::new("t".to_string(), "p".to_string());
    app.show_password = true;
    app.entry_loaded_for_edit = true;
    app.viewstate = ViewState::FullEntry;
    app.push_loaded_entry(EncryptedEntry::new("t".to_string(), vec![], [0u8; 12]));
    app.load_edit_entry(EditAction::Cancel);
    assert_eq!(app.new_entry.title, "");
    assert_eq!(app.new_entry.password, "");
    assert!(!app.show_password && !app.entry_loaded_for_edit);
    assert_eq!(app.viewstate, ViewState::DatabaseStartMenu);
    assert_eq!(app.loaded_entries.len(), 1);
}

#[test]
fn new_entry_cancel_keeps_the_form() {
    let mut app = unlocked_app();
    app.viewstate = ViewState::NewEntry;
    app.new_entry = Entry::new("t".to_string(), "p".to_string());
    app.new_entry(NewEntryAction::Cancel);
    assert_eq!(app.viewstate, ViewState::DatabaseStartMenu);
    assert_eq!(app.new_entry.title, "t");
}

#[test]
fn update_entry_checks_the_index() {
    let app = unlocked_app();
    let mut lines = vec!["h".to_string(), seal_record(&app.key, &[0u8; 12], b"x").unwrap()];
    let before = lines.clone();
    assert_eq!(app.update_entry(1, b"y", &mut lines), Err(VaultError::EntryIndexOutOfBounds));
    assert_eq!(lines, before);
    let mut empty: Vec<String> = vec![];
    assert_eq!(app.update_entry(0, b"y", &mut empty), Err(VaultError::EntryIndexOutOfBounds));
    assert_eq!(app.update_entry(usize::MAX, b"y", &mut lines), Err(VaultError::EntryIndexOutOfBounds));
}

#[test]
fn update_entry_keeps_other_records() {
    let app = unlocked_app();
    let r0 = seal_record(&app.key, &[0u8; 12], b"zero").unwrap();
    let r1 = seal_record(&app.key, &[1u8; 12], b"one").unwrap();
    let mut lines = vec!["h".to_string(), r0.clone(), r1];
    app.update_entry(1, b"uno", &mut lines).unwrap();
    assert_eq!(lines[1], r0);
    let recs = decrypt_entries(&app.key, &lines).unwrap();
    assert_eq!(recs.len(), 2);
    assert_eq!(recs[0].plaintext, b"zero".to_vec());
    assert_eq!(recs[1].plaintext, b"uno".to_vec());
}

#[test]
fn operations_need_a_chosen_file() {
    let mut app = unlocked_app();
    app.file_path = None;
    assert_eq!(app.create_new_entry(b"x"), Err(VaultError::NoFilePath));
    let mut lines = vec!["h".to_string(), "a:b".to_string()];
    assert_eq!(app.update_entry(0, b"x", &mut lines), Err(VaultError::NoFilePath));
    assert!(matches!(app.decrypt_all_entries(&lines), Err(VaultError::NoFilePath)));
}

#[test]
fn entry_new_and_wipe() {
    let mut e = Entry::new("title".to_string(), "secret".to_string());
    assert_eq!(e.title, "title");
    assert_eq!(e.password, "secret");
    let c = e.clone();
    e.wipe();
    assert_eq!(e.title, "");
    assert_eq!(e.password, "");
    assert_eq!(c.password, "secret");
    let d = Entry::default();
    assert_eq!(d.title, "");
}
