use vstd::prelude::*;
use vstd::utf8::encode_utf8;
use crate::aead::{seal_accepts_len, TAG_LEN};
use crate::database::{
    create_db_with, is_created_vault,
    decrypt_entries, decrypt_entries_spec, new_record, open_entry_payload,
    open_record_spec, records_view, sealed_record_line, unlock_db_with, unlock_spec,
    LoadedRecord, LoadedRecordView,
};
use crate::aead::chacha20poly1305_open;
use crate::entry::{EncryptedEntry, EncryptedEntryView, Entry, EntryView};
use crate::error::VaultError;
use crate::kdf::{argon2d_key, phc_salt, KdfParams};
use crate::text::trim_spec;

verus! {

/// The screen the main window shows.
#[derive(Debug, Clone, Copy, PartialEq, Eq, Structural)]
pub enum ViewState {
    StartMenu,
    UnlockDatabase,
    DatabaseStartMenu,
    NewEntry,
    FullEntry,
}

impl Default for ViewState {
    fn default() -> (res: Self)
        ensures
            res == ViewState::StartMenu,
    {
        ViewState::StartMenu
    }
}

/// A file-system path as std's `PathBuf` holds it (any bytes the platform
/// allows, not only UTF-8). The window only keeps the path the dialogs chose
/// and hands it back; nothing here looks inside it.
#[verifier::external_type_specification]
#[verifier::external_body]
pub struct ExPathBuf(std::path::PathBuf);

/// The plain value of [`MyApp`], field by field.
pub struct AppView {
    pub viewstate: ViewState,
    pub show_new_db_viewport: bool,
    pub db_selected: bool,
    pub new_db_name: Seq<char>,
    pub new_db_page: i32,
    pub new_db_password: Seq<char>,
    pub new_db_confirm_password: Seq<char>,
    pub password: Seq<char>,
    pub key: Seq<u8>,
    pub file_path: Option<std::path::PathBuf>,
    pub pending_create: bool,
    pub pending_open: bool,
    pub unlocked_db: bool,
    pub new_entry: EntryView,
    pub loaded_entries: Seq<EncryptedEntryView>,
    pub full_entry_index: usize,
    pub show_password: bool,
    pub entry_loaded_for_edit: bool,
}

/// The state of the password-manager window, without its widgets.
pub struct MyApp {
    pub viewstate: ViewState,
    pub show_new_db_viewport: bool,
    pub db_selected: bool,
    pub new_db_name: String,
    pub new_db_page: i32,
    pub new_db_password: String,
    pub new_db_confirm_password: String,
    pub password: String,
    pub key: [u8; 32],
    pub file_path: Option<std::path::PathBuf>,
    pub pending_create: bool,
    pub pending_open: bool,
    pub unlocked_db: bool,
    pub new_entry: Entry,
    pub loaded_entries: Vec<EncryptedEntry>,
    pub full_entry_index: usize,
    pub show_password: bool,
    pub entry_loaded_for_edit: bool,
}

impl View for MyApp {
    type V = AppView;

    open spec fn view(&self) -> AppView {
        AppView {
            viewstate: self.viewstate,
            show_new_db_viewport: self.show_new_db_viewport,
            db_selected: self.db_selected,
            new_db_name: self.new_db_name@,
            new_db_page: self.new_db_page,
            new_db_password: self.new_db_password@,
            new_db_confirm_password: self.new_db_confirm_password@,
            password: self.password@,
            key: self.key@,
            file_path: self.file_path,
            pending_create: self.pending_create,
            pending_open: self.pending_open,
            unlocked_db: self.unlocked_db,
            new_entry: self.new_entry@,
            loaded_entries: self.loaded_entries@.map_values(|e: EncryptedEntry| e@),
            full_entry_index: self.full_entry_index,
            show_password: self.show_password,
            entry_loaded_for_edit: self.entry_loaded_for_edit,
        }
    }
}

/// The state the window starts in: the start menu, nothing chosen, the key all zeros.
pub open spec fn initial_view() -> AppView {
    AppView {
        viewstate: ViewState::StartMenu,
        show_new_db_viewport: false,
        db_selected: false,
        new_db_name: Seq::empty(),
        new_db_page: 0,
        new_db_password: Seq::empty(),
        new_db_confirm_password: Seq::empty(),
        password: Seq::empty(),
        key: Seq::new(32, |i: int| 0u8),
        file_path: None,
        pending_create: false,
        pending_open: false,
        unlocked_db: false,
        new_entry: EntryView { title: Seq::empty(), password: Seq::empty() },
        loaded_entries: Seq::empty(),
        full_entry_index: 0,
        show_password: false,
        entry_loaded_for_edit: false,
    }
}

impl AppView {
    /// What the window keeps true: the new-database dialog is on page 0 or 1,
    /// and the full-entry screen shows an entry that is listed.
    pub open spec fn wf(self) -> bool {
        &&& 0 <= self.new_db_page <= 1
        &&& self.viewstate == ViewState::FullEntry ==> self.full_entry_index < self.loaded_entries.len()
    }
}

impl MyApp {
    /// The window in its initial state.
    pub fn new() -> (res: Self)
        ensures
            res@ == initial_view(),
            res@.wf(),
    {
        let res = MyApp {
            viewstate: ViewState::StartMenu,
            show_new_db_viewport: false,
            db_selected: false,
            new_db_name: String::new(),
            new_db_page: 0,
            new_db_password: String::new(),
            new_db_confirm_password: String::new(),
            password: String::new(),
            key: [0u8; 32],
            file_path: None,
            pending_create: false,
            pending_open: false,
            unlocked_db: false,
            new_entry: Entry::new(String::new(), String::new()),
            loaded_entries: Vec::new(),
            full_entry_index: 0,
            show_password: false,
            entry_loaded_for_edit: false,
        };
        assert(res.key@ =~= Seq::new(32, |i: int| 0u8));
        assert(res@.loaded_entries =~= Seq::<EncryptedEntryView>::empty());
        res
    }
}

/// What a click in the menu bar asks for.
pub enum HeaderAction {
    /// "Create New Database": show the new-database dialog.
    CreateNewDatabase,
    /// "Open Database", with the file that the file picker returned.
    OpenDatabase(Option<std::path::PathBuf>),
    /// "Lock Database": forget the unlocked vault.
    LockDatabase,
    /// "Quit": only closes the menu.
    Quit,
    /// "New Entry": show the new-entry form of an unlocked vault.
    NewEntry,
}

/// What a click on the start screen asks for.
pub enum StartAction {
    /// "Create New Database": show the new-database dialog.
    CreateNewDatabase,
    /// "Open Database", with the file that the file picker returned.
    OpenDatabase(Option<std::path::PathBuf>),
}

/// What happens in the new-database dialog.
pub enum NewDbAction {
    /// "Go Back" on the password page.
    GoBack,
    /// "Done" on the password page.
    Done,
    /// "Cancel" on the name page.
    Cancel,
    /// "Continue" on the name page.
    Continue,
    /// The dialog window was asked to close.
    CloseRequested,
}

impl MyApp {
    /// Puts the new-database dialog away and forgets what was typed in it.
    pub fn reset_new_db_state(&mut self)
        ensures
            final(self)@ == (AppView {
                pending_create: false,
                file_path: None,
                show_new_db_viewport: false,
                new_db_name: Seq::empty(),
                new_db_page: 0,
                new_db_password: Seq::empty(),
                new_db_confirm_password: Seq::empty(),
                ..old(self)@
            }),
            old(self)@.wf() ==> final(self)@.wf(),
    {
        self.pending_create = false;
        self.file_path = None;
        self.show_new_db_viewport = false;
        self.new_db_name = String::new();
        self.new_db_page = 0;
        self.new_db_password = String::new();
        self.new_db_confirm_password = String::new();
    }

    /// Forgets everything: the window goes back to its initial state.
    pub fn reset_app_state(&mut self)
        ensures
            final(self)@ == initial_view(),
    {
        *self = MyApp::new();
    }

    /// Handles a click in the menu bar.
    pub fn header(&mut self, action: HeaderAction)
        ensures
            old(self)@.wf() ==> final(self)@.wf(),
            match action {
                HeaderAction::CreateNewDatabase => final(self)@ == (AppView {
                    show_new_db_viewport: true,
                    ..old(self)@
                }),
                HeaderAction::OpenDatabase(path) => final(self)@ == (AppView {
                    file_path: path,
                    pending_open: true,
                    ..old(self)@
                }),
                HeaderAction::LockDatabase => final(self)@ == if old(self).unlocked_db {
                    initial_view()
                } else {
                    old(self)@
                },
                HeaderAction::Quit => final(self)@ == old(self)@,
                HeaderAction::NewEntry => final(self)@ == if old(self).unlocked_db {
                    AppView { viewstate: ViewState::NewEntry, ..old(self)@ }
                } else {
                    old(self)@
                },
            },
    {
        match action {
            HeaderAction::CreateNewDatabase => {
                self.show_new_db_viewport = true;
            },
            HeaderAction::OpenDatabase(path) => {
                self.file_path = path;
                self.pending_open = true;
            },
            HeaderAction::LockDatabase => {
                if self.unlocked_db {
                    self.reset_app_state();
                }
            },
            HeaderAction::Quit => {},
            HeaderAction::NewEntry => {
                if self.unlocked_db {
                    self.viewstate = ViewState::NewEntry;
                }
            },
        }
    }

    /// Handles a click on the start screen.
    pub fn start_menu(&mut self, action: StartAction)
        ensures
            old(self)@.wf() ==> final(self)@.wf(),
            match action {
                StartAction::CreateNewDatabase => final(self)@ == (AppView {
                    show_new_db_viewport: true,
                    ..old(self)@
                }),
                StartAction::OpenDatabase(path) => final(self)@ == (AppView {
                    file_path: path,
                    pending_open: true,
                    ..old(self)@
                }),
            },
    {
        match action {
            StartAction::CreateNewDatabase => {
                self.show_new_db_viewport = true;
            },
            StartAction::OpenDatabase(path) => {
                self.file_path = path;
                self.pending_open = true;
            },
        }
    }
}

/// The file name that the save dialog of a new database suggests: the name
/// typed in the dialog followed by `.enc`.
pub open spec fn db_file_name_spec(name: Seq<char>) -> Seq<char> {
    name + seq!['.', 'e', 'n', 'c']
}

/// The suggested file name is the typed name, whole and unchanged, followed
/// by the four characters `.enc`, whatever the name.
pub proof fn lemma_db_file_name_ends_in_enc(name: Seq<char>)
    ensures
        db_file_name_spec(name) == name + seq!['.', 'e', 'n', 'c'],
        db_file_name_spec(name).len() == name.len() + 4,
        db_file_name_spec(name).subrange(0, name.len() as int) == name,
        db_file_name_spec(name).subrange(name.len() as int, name.len() + 4int) == seq!['.', 'e', 'n', 'c'],
{
    let f = db_file_name_spec(name);
    assert(f.subrange(0, name.len() as int) =~= name);
    assert(f.subrange(name.len() as int, name.len() + 4int) =~= seq!['.', 'e', 'n', 'c']);
}

impl MyApp {
    /// Handles what happens in the new-database dialog (shown only while
    /// `show_new_db_viewport` is set). Page 1 asks for the password twice,
    /// any other page for the name. On "Done" with two equal passwords the
    /// result is the file name to suggest in the save dialog, whose answer
    /// goes to [`MyApp::save_path_chosen`].
    pub fn show_new_db_viewport_ui(&mut self, action: NewDbAction) -> (res: Option<String>)
        requires
            (action is Continue && old(self).show_new_db_viewport && old(self).new_db_page != 1)
                ==> old(self).new_db_page < i32::MAX,
        ensures
            old(self)@.wf() ==> final(self)@.wf(),
            res matches Some(name) ==> name@ == db_file_name_spec(old(self).new_db_name@),
            res matches Some(name) ==> name@ == old(self).new_db_name@ + seq!['.', 'e', 'n', 'c'],
            !old(self).show_new_db_viewport ==> final(self)@ == old(self)@ && res is None,
            old(self).show_new_db_viewport && old(self).new_db_page == 1 ==> match action {
                NewDbAction::GoBack => res is None && final(self)@ == (AppView {
                    new_db_page: 0,
                    ..old(self)@
                }),
                NewDbAction::Done => final(self)@ == old(self)@ && (res is Some <==> old(
                    self,
                ).new_db_password@ == old(self).new_db_confirm_password@),
                NewDbAction::CloseRequested => res is None && final(self)@ == (AppView {
                    show_new_db_viewport: false,
                    ..old(self)@
                }),
                _ => res is None && final(self)@ == old(self)@,
            },
            old(self).show_new_db_viewport && old(self).new_db_page != 1 ==> res is None
                && match action {
                NewDbAction::Continue => final(self)@ == (AppView {
                    new_db_page: (old(self).new_db_page + 1) as i32,
                    ..old(self)@
                }),
                NewDbAction::Cancel | NewDbAction::CloseRequested => final(self)@ == (AppView {
                    show_new_db_viewport: false,
                    ..old(self)@
                }),
                _ => final(self)@ == old(self)@,
            },
    {
        if !self.show_new_db_viewport {
            return None;
        }
        if self.new_db_page == 1 {
            match action {
                NewDbAction::GoBack => {
                    self.new_db_page = self.new_db_page - 1;
                    None
                },
                NewDbAction::Done => {
                    if self.new_db_password == self.new_db_confirm_password {
                        let mut name = self.new_db_name.clone();
                        let ext = ".enc";
                        proof {
                            reveal_strlit(".enc");
                        }
                        name.append(ext);
                        Some(name)
                    } else {
                        None
                    }
                },
                NewDbAction::CloseRequested => {
                    self.show_new_db_viewport = false;
                    None
                },
                _ => None,
            }
        } else {
            match action {
                NewDbAction::Continue => {
                    self.new_db_page = self.new_db_page + 1;
                },
                NewDbAction::Cancel | NewDbAction::CloseRequested => {
                    self.show_new_db_viewport = false;
                },
                _ => {},
            }
            None
        }
    }

    /// Takes the answer of the save dialog of a new database: the file to
    /// create (if one was chosen), and marks the creation as pending.
    pub fn save_path_chosen(&mut self, path: Option<std::path::PathBuf>)
        ensures
            final(self)@ == (AppView { file_path: path, pending_create: true, ..old(self)@ }),
            old(self)@.wf() ==> final(self)@.wf(),
    {
        self.file_path = path;
        self.pending_create = true;
    }

    /// Takes the file that the open dialog picked.
    pub fn file_picked(&mut self, path: std::path::PathBuf)
        ensures
            final(self)@ == (AppView { file_path: Some(path), ..old(self)@ }),
            old(self)@.wf() ==> final(self)@.wf(),
    {
        self.file_path = Some(path);
    }
}

/// What a click in the new-entry form asks for.
pub enum NewEntryAction {
    /// "Create": the entry has been stored; clear the form and the listing.
    Create,
    /// "Cancel": back to the listing.
    Cancel,
}

/// What a click in the entry editor asks for.
pub enum EditAction {
    /// "View Password": show or hide the password.
    TogglePassword,
    /// "Change": the edited entry has been stored; back to the listing.
    Change,
    /// "Cancel": forget the edit and go back to the listing.
    Cancel,
}

/// What the window has to do once a file has been chosen.
#[derive(Debug, Clone, Copy, PartialEq, Eq, Structural)]
pub enum PendingStep {
    /// Nothing.
    Idle,
    /// Create the new database at the chosen file.
    CreateDatabase,
    /// Ask for the password of the chosen database.
    OpenDatabase,
}

impl MyApp {
    /// Unlocks the chosen database with the typed password, given the first
    /// line of its file and the Argon2 parameters.
    pub fn unlock_db_with(&mut self, first_line: &str, params: &KdfParams) -> (res: Result<(), VaultError>)
        requires
            params.valid(),
        ensures
            old(self)@.wf() ==> final(self)@.wf(),
            match unlock_spec(encode_utf8(old(self).password@), first_line@, *params) {
                Ok(k) => res is Ok && final(self)@ == (AppView {
                    key: k,
                    db_selected: false,
                    unlocked_db: true,
                    viewstate: ViewState::DatabaseStartMenu,
                    ..old(self)@
                }),
                Err(e) => res == Err::<(), VaultError>(e) && final(self)@ == old(self)@,
            },
            res matches Err(e) ==> e != VaultError::KeyDerivationFailed && e != VaultError::NoSaltInHash,
            res is Ok ==> (phc_salt(trim_spec(first_line@)) matches Some(Some(s)) && final(self).key@ == argon2d_key(
                encode_utf8(old(self).password@),
                encode_utf8(s),
                params.m_cost,
                params.t_cost,
                params.p_cost,
            )),
    {
        match unlock_db_with(self.password.as_str(), first_line, params) {
            Ok(key) => {
                self.key = key;
                self.db_selected = false;
                self.unlocked_db = true;
                self.viewstate = ViewState::DatabaseStartMenu;
                Ok(())
            },
            Err(e) => Err(e),
        }
    }

    /// Unlocks the chosen database with the typed password, given the first
    /// line of its file, with the vault's Argon2 parameters.
    pub fn unlock_db(&mut self, first_line: &str) -> (res: Result<(), VaultError>)
        ensures
            old(self)@.wf() ==> final(self)@.wf(),
            match unlock_spec(encode_utf8(old(self).password@), first_line@, KdfParams::vault_spec()) {
                Ok(k) => res is Ok && final(self)@ == (AppView {
                    key: k,
                    db_selected: false,
                    unlocked_db: true,
                    viewstate: ViewState::DatabaseStartMenu,
                    ..old(self)@
                }),
                Err(e) => res == Err::<(), VaultError>(e) && final(self)@ == old(self)@,
            },
            res matches Err(e) ==> e != VaultError::KeyDerivationFailed && e != VaultError::NoSaltInHash,
            res is Ok ==> (phc_salt(trim_spec(first_line@)) matches Some(Some(s)) && final(self).key@ == argon2d_key(
                encode_utf8(old(self).password@),
                encode_utf8(s),
                16000,
                160,
                1,
            )),
    {
        let params = KdfParams::vault();
        self.unlock_db_with(first_line, &params)
    }

    /// Reads the lines of the chosen database file under the vault key (see
    /// [`decrypt_entries`]); the listing itself is filled by
    /// [`MyApp::push_loaded_entry`] with the title read from each plaintext.
    pub fn decrypt_all_entries(&self, lines: &Vec<String>) -> (res: Result<Vec<LoadedRecord>, VaultError>)
        ensures
            self.file_path is None ==> res == Err::<Vec<LoadedRecord>, VaultError>(VaultError::NoFilePath),
            self.file_path is Some ==> match res {
                Ok(records) => decrypt_entries_spec(self.key@, lines@) == Ok::<
                    Seq<LoadedRecordView>,
                    VaultError,
                >(records_view(records@)),
                Err(e) => decrypt_entries_spec(self.key@, lines@) == Err::<
                    Seq<LoadedRecordView>,
                    VaultError,
                >(e),
            },
    {
        if self.file_path.is_none() {
            return Err(VaultError::NoFilePath);
        }
        decrypt_entries(&self.key, lines)
    }

    /// Adds an entry at the end of the listing.
    pub fn push_loaded_entry(&mut self, entry: EncryptedEntry)
        ensures
            final(self)@ == (AppView { loaded_entries: old(self)@.loaded_entries.push(entry@), ..old(self)@ }),
            old(self)@.wf() ==> final(self)@.wf(),
    {
        let ghost e = entry@;
        self.loaded_entries.push(entry);
        assert(final(self)@.loaded_entries =~= old(self)@.loaded_entries.push(e));
    }

    /// Opens the sealed JSON of the listed entry `index` under the vault key.
    pub fn encrypted_payload_to_entry(&self, index: usize) -> (res: Result<Vec<u8>, VaultError>)
        requires
            index < self.loaded_entries@.len(),
        ensures
            ({
                let e = self.loaded_entries@[index as int];
                match res {
                    Ok(p) => chacha20poly1305_open(self.key@, e.nonce@, e.encrypted_json@) == Some(p@),
                    Err(err) => chacha20poly1305_open(self.key@, e.nonce@, e.encrypted_json@) is None
                        && err == VaultError::DecryptionFailed,
                }
            }),
    {
        open_entry_payload(&self.key, &self.loaded_entries[index])
    }

    /// Seals `payload` (the JSON of the new entry) under the vault key with a
    /// fresh nonce and gives the record line to append to the database file.
    pub fn create_new_entry(&self, payload: &[u8]) -> (res: Result<String, VaultError>)
        ensures
            self.file_path is None ==> res == Err::<String, VaultError>(VaultError::NoFilePath),
            self.file_path is Some ==> (res is Ok <==> seal_accepts_len(payload@.len())),
            self.file_path is Some && res is Err ==> res == Err::<String, VaultError>(VaultError::PayloadTooLong),
            res matches Ok(line) ==> exists|nonce: Seq<u8>|
                nonce.len() == 12 && line@ == #[trigger] sealed_record_line(self.key@, nonce, payload@),
            res matches Ok(line) ==> line@.len() == 2 * (payload@.len() + TAG_LEN) + 25,
            res matches Ok(line) ==> (open_record_spec(self.key@, encode_utf8(line@)) matches Ok(Some(r))
                && r.plaintext == payload@),
    {
        if self.file_path.is_none() {
            return Err(VaultError::NoFilePath);
        }
        new_record(&self.key, payload)
    }

    /// Replaces, in the lines of the database file, the record of the listed
    /// entry `index` (line `index + 1`, after the password hash) by `payload`
    /// (the JSON of the changed entry) sealed under the vault key with a fresh
    /// nonce. Every other line is kept.
    pub fn update_entry(&self, index: usize, payload: &[u8], lines: &mut Vec<String>) -> (res: Result<(), VaultError>)
        ensures
            self.file_path is None ==> res == Err::<(), VaultError>(VaultError::NoFilePath),
            self.file_path is Some && old(lines)@.len() <= index + 1 ==> res == Err::<(), VaultError>(
                VaultError::EntryIndexOutOfBounds,
            ),
            self.file_path is Some && index + 1 < old(lines)@.len() && !seal_accepts_len(payload@.len())
                ==> res == Err::<(), VaultError>(VaultError::PayloadTooLong),
            self.file_path is Some && index + 1 < old(lines)@.len() && seal_accepts_len(payload@.len())
                ==> res is Ok,
            res is Err ==> final(lines)@ == old(lines)@,
            res is Ok ==> {
                &&& final(lines)@.len() == old(lines)@.len()
                &&& forall|j: int|
                    0 <= j < old(lines)@.len() && j != index + 1 ==> final(lines)@[j] == old(lines)@[j]
                &&& exists|nonce: Seq<u8>|
                    nonce.len() == 12 && final(lines)@[index + 1]@ == #[trigger] sealed_record_line(
                        self.key@,
                        nonce,
                        payload@,
                    )
                &&& open_record_spec(self.key@, encode_utf8(final(lines)@[index + 1]@)) matches Ok(Some(r))
                    && r.plaintext == payload@
                &&& final(lines)@[index + 1]@.len() == 2 * (payload@.len() + TAG_LEN) + 25
            },
    {
        if self.file_path.is_none() {
            return Err(VaultError::NoFilePath);
        }
        if lines.len() == 0 || index >= lines.len() - 1 {
            return Err(VaultError::EntryIndexOutOfBounds);
        }
        let line = match new_record(&self.key, payload) {
            Ok(l) => l,
            Err(e) => {
                return Err(e);
            },
        };
        lines.set(index + 1, line);
        Ok(())
    }
}

impl MyApp {
    /// Handles a click in the new-entry form. "Create" comes after the entry
    /// has been sealed ([`MyApp::create_new_entry`]) and appended to the file:
    /// the listing is emptied (to be read again from the file) and the form is
    /// wiped.
    pub fn new_entry(&mut self, action: NewEntryAction)
        ensures
            old(self)@.wf() ==> final(self)@.wf(),
            match action {
                NewEntryAction::Create => final(self)@ == (AppView {
                    loaded_entries: Seq::empty(),
                    new_entry: EntryView { title: Seq::empty(), password: Seq::empty() },
                    viewstate: ViewState::DatabaseStartMenu,
                    ..old(self)@
                }),
                NewEntryAction::Cancel => final(self)@ == (AppView {
                    viewstate: ViewState::DatabaseStartMenu,
                    ..old(self)@
                }),
            },
    {
        match action {
            NewEntryAction::Create => {
                self.loaded_entries.clear();
                self.new_entry.wipe();
                self.viewstate = ViewState::DatabaseStartMenu;
                assert(final(self)@.loaded_entries =~= Seq::<EncryptedEntryView>::empty());
            },
            NewEntryAction::Cancel => {
                self.viewstate = ViewState::DatabaseStartMenu;
            },
        }
    }

    /// Shows the listed entry `index` in full.
    pub fn load_entry_listing(&mut self, index: usize)
        requires
            index < old(self).loaded_entries@.len(),
        ensures
            final(self)@ == (AppView {
                full_entry_index: index,
                viewstate: ViewState::FullEntry,
                ..old(self)@
            }),
            old(self)@.wf() ==> final(self)@.wf(),
    {
        self.full_entry_index = index;
        self.viewstate = ViewState::FullEntry;
    }

    /// Puts the opened entry (read from [`MyApp::encrypted_payload_to_entry`])
    /// into the editor.
    pub fn load_entry_for_edit(&mut self, entry: Entry)
        ensures
            final(self)@ == (AppView { new_entry: entry@, entry_loaded_for_edit: true, ..old(self)@ }),
            old(self)@.wf() ==> final(self)@.wf(),
    {
        self.new_entry = entry;
        self.entry_loaded_for_edit = true;
    }

    /// Handles a click in the entry editor. "Change" comes after the edited
    /// entry has been stored ([`MyApp::update_entry`]): the listing is emptied,
    /// to be read again from the file. "Cancel" wipes the edited entry and
    /// hides the password again.
    pub fn load_edit_entry(&mut self, action: EditAction)
        ensures
            old(self)@.wf() ==> final(self)@.wf(),
            match action {
                EditAction::TogglePassword => final(self)@ == (AppView {
                    show_password: !old(self).show_password,
                    ..old(self)@
                }),
                EditAction::Change => final(self)@ == (AppView {
                    entry_loaded_for_edit: false,
                    viewstate: ViewState::DatabaseStartMenu,
                    loaded_entries: Seq::empty(),
                    ..old(self)@
                }),
                EditAction::Cancel => final(self)@ == (AppView {
                    new_entry: EntryView { title: Seq::empty(), password: Seq::empty() },
                    show_password: false,
                    entry_loaded_for_edit: false,
                    viewstate: ViewState::DatabaseStartMenu,
                    ..old(self)@
                }),
            },
    {
        match action {
            EditAction::TogglePassword => {
                self.show_password = !self.show_password;
            },
            EditAction::Change => {
                self.entry_loaded_for_edit = false;
                self.viewstate = ViewState::DatabaseStartMenu;
                self.loaded_entries.clear();
                assert(final(self)@.loaded_entries =~= Seq::<EncryptedEntryView>::empty());
            },
            EditAction::Cancel => {
                self.new_entry.wipe();
                self.show_password = false;
                self.entry_loaded_for_edit = false;
                self.viewstate = ViewState::DatabaseStartMenu;
            },
        }
    }

    /// What the window has to do about a chosen file: create the new database
    /// when a creation is pending, else ask for the password when an opening
    /// is pending; only once a file has been chosen.
    pub fn pending_step(&self) -> (res: PendingStep)
        ensures
            res == (if self.pending_create {
                if self.file_path is Some {
                    PendingStep::CreateDatabase
                } else {
                    PendingStep::Idle
                }
            } else if self.pending_open && self.file_path is Some {
                PendingStep::OpenDatabase
            } else {
                PendingStep::Idle
            }),
    {
        if self.pending_create {
            if self.file_path.is_some() {
                PendingStep::CreateDatabase
            } else {
                PendingStep::Idle
            }
        } else if self.pending_open && self.file_path.is_some() {
            PendingStep::OpenDatabase
        } else {
            PendingStep::Idle
        }
    }

    /// Creates the new database from the typed password with the Argon2
    /// parameters `params`: the result is the text to write to the chosen
    /// file; the window keeps the key and puts the dialog away.
    pub fn create_database_with(&mut self, params: &KdfParams) -> (res: Result<String, VaultError>)
        requires
            params.valid(),
        ensures
            old(self)@.wf() ==> final(self)@.wf(),
            res is Err ==> final(self)@ == old(self)@,
            res is Ok <==> encode_utf8(old(self).new_db_password@).len() <= 0xffff_ffff,
            res matches Err(e) ==> e == VaultError::HashingFailed,
            res matches Ok(text) ==> is_created_vault(
                encode_utf8(old(self).new_db_password@),
                text@,
                final(self).key@,
                params.m_cost,
                params.t_cost,
                params.p_cost,
            ),
            res matches Ok(text) ==> unlock_spec(encode_utf8(old(self).new_db_password@), text@, *params)
                == Ok::<Seq<u8>, VaultError>(final(self).key@),
            res matches Ok(text) ==> (phc_salt(trim_spec(text@)) matches Some(Some(s)) && final(self).key@
                == argon2d_key(
                encode_utf8(old(self).new_db_password@),
                encode_utf8(s),
                params.m_cost,
                params.t_cost,
                params.p_cost,
            )),
            res is Ok ==> final(self)@ == (AppView {
                key: final(self).key@,
                pending_create: false,
                file_path: None,
                show_new_db_viewport: false,
                new_db_name: Seq::empty(),
                new_db_page: 0,
                new_db_password: Seq::empty(),
                new_db_confirm_password: Seq::empty(),
                ..old(self)@
            }),
    {
        match create_db_with(self.new_db_password.as_str(), params) {
            Ok((text, key)) => {
                self.key = key;
                self.reset_new_db_state();
                self.file_path = None;
                Ok(text)
            },
            Err(e) => Err(e),
        }
    }

    /// Creates the new database from the typed password with the vault's
    /// Argon2 parameters (see [`MyApp::create_database_with`]).
    pub fn create_database(&mut self) -> (res: Result<String, VaultError>)
        ensures
            old(self)@.wf() ==> final(self)@.wf(),
            res is Err ==> final(self)@ == old(self)@,
            res is Ok <==> encode_utf8(old(self).new_db_password@).len() <= 0xffff_ffff,
            res matches Err(e) ==> e == VaultError::HashingFailed,
            res matches Ok(text) ==> is_created_vault(
                encode_utf8(old(self).new_db_password@),
                text@,
                final(self).key@,
                16000,
                160,
                1,
            ),
            res matches Ok(text) ==> unlock_spec(
                encode_utf8(old(self).new_db_password@),
                text@,
                KdfParams::vault_spec(),
            ) == Ok::<Seq<u8>, VaultError>(final(self).key@),
            res matches Ok(text) ==> (phc_salt(trim_spec(text@)) matches Some(Some(s)) && final(self).key@
                == argon2d_key(encode_utf8(old(self).new_db_password@), encode_utf8(s), 16000, 160, 1)),
            res is Ok ==> final(self)@ == (AppView {
                key: final(self).key@,
                pending_create: false,
                file_path: None,
                show_new_db_viewport: false,
                new_db_name: Seq::empty(),
                new_db_page: 0,
                new_db_password: Seq::empty(),
                new_db_confirm_password: Seq::empty(),
                ..old(self)@
            }),
    {
        let params = KdfParams::vault();
        self.create_database_with(&params)
    }

    /// Goes to the password prompt of the chosen database.
    pub fn open_selected_database(&mut self)
        ensures
            final(self)@ == (AppView {
                password: Seq::empty(),
                unlocked_db: false,
                db_selected: true,
                viewstate: ViewState::UnlockDatabase,
                pending_open: false,
                ..old(self)@
            }),
            old(self)@.wf() ==> final(self)@.wf(),
    {
        self.password = String::new();
        self.unlocked_db = false;
        self.db_selected = true;
        self.viewstate = ViewState::UnlockDatabase;
        self.pending_open = false;
    }
}

impl MyApp {
    /// The listing of the unlocked vault: the title of every loaded entry, in order.
    pub fn unlocked_db(&self) -> (res: Vec<String>)
        ensures
            res@.len() == self.loaded_entries@.len(),
            forall|i: int| 0 <= i < res@.len() ==> #[trigger] res@[i]@ == self.loaded_entries@[i].title@,
    {
        let mut titles: Vec<String> = Vec::new();
        let n = self.loaded_entries.len();
        for i in 0..n
            invariant
                n == self.loaded_entries@.len(),
                titles@.len() == i,
                forall|j: int| 0 <= j < i ==> #[trigger] titles@[j]@ == self.loaded_entries@[j].title@,
        {
            titles.push(self.loaded_entries[i].title.clone());
        }
        titles
    }
}

} // verus!
