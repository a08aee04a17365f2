use vstd::prelude::*;
use zeroize::Zeroize;

verus! {

/// The plain value of an [`Entry`]: its title and password as character sequences.
pub struct EntryView {
    pub title: Seq<char>,
    pub password: Seq<char>,
}

/// A vault entry: a title and the password stored under it.
pub struct Entry {
    pub title: String,
    pub password: String,
}

impl View for Entry {
    type V = EntryView;

    open spec fn view(&self) -> EntryView {
        EntryView { title: self.title@, password: self.password@ }
    }
}

impl Entry {
    /// Builds an entry from its title and password.
    pub fn new(title: String, password: String) -> (res: Self)
        ensures
            res.title@ == title@,
            res.password@ == password@,
    {
        Entry { title, password }
    }
}

/// `Zeroize::zeroize` of a `String`: its bytes are overwritten with zeros and
/// it is cleared. Claims: it is empty afterwards.
#[verifier::external_body]
pub(crate) fn wipe_string(s: &mut String)
    ensures
        final(s)@ == Seq::<char>::empty(),
{
    s.zeroize();
}

impl Entry {
    /// Wipes the title and the password from memory, leaving both empty.
    pub fn wipe(&mut self)
        ensures
            final(self)@ == (EntryView { title: Seq::empty(), password: Seq::empty() }),
    {
        wipe_string(&mut self.title);
        wipe_string(&mut self.password);
    }
}

impl Clone for Entry {
    fn clone(&self) -> (res: Self)
        ensures
            res@ == self@,
    {
        Entry { title: self.title.clone(), password: self.password.clone() }
    }
}

impl Default for Entry {
    fn default() -> (res: Self)
        ensures
            res@.title == Seq::<char>::empty(),
            res@.password == Seq::<char>::empty(),
    {
        Entry { title: String::new(), password: String::new() }
    }
}

/// The plain value of an [`EncryptedEntry`].
pub struct EncryptedEntryView {
    pub title: Seq<char>,
    pub encrypted_json: Seq<u8>,
    pub nonce: Seq<u8>,
}

/// An entry as the unlocked vault lists it: its title in clear, the sealed
/// JSON of the whole entry, and the nonce it was sealed with.
pub struct EncryptedEntry {
    pub title: String,
    pub encrypted_json: Vec<u8>,
    pub nonce: [u8; 12],
}

impl View for EncryptedEntry {
    type V = EncryptedEntryView;

    open spec fn view(&self) -> EncryptedEntryView {
        EncryptedEntryView {
            title: self.title@,
            encrypted_json: self.encrypted_json@,
            nonce: self.nonce@,
        }
    }
}

impl EncryptedEntry {
    /// Builds a listed entry from its title, sealed JSON and nonce.
    pub fn new(title: String, encrypted_json: Vec<u8>, nonce: [u8; 12]) -> (res: Self)
        ensures
            res@ == (EncryptedEntryView { title: title@, encrypted_json: encrypted_json@, nonce: nonce@ }),
    {
        EncryptedEntry { title, encrypted_json, nonce }
    }
}

} // verus!
