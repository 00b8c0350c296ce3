//! A stored credential.

use vstd::prelude::*;

verus! {

/// One credential of the vault. `name` is what it is found by.
#[derive(Clone)]
pub struct Entry {
    pub name: String,
    pub username: String,
    pub password: String,
    pub url: String,
    pub notes: String,
}

/// The contents of an [`Entry`], field by field.
pub struct EntryView {
    pub name: Seq<char>,
    pub username: Seq<char>,
    pub password: Seq<char>,
    pub url: Seq<char>,
    pub notes: Seq<char>,
}

impl View for Entry {
    type V = EntryView;

    open spec fn view(&self) -> EntryView {
        EntryView {
            name: self.name@,
            username: self.username@,
            password: self.password@,
            url: self.url@,
            notes: self.notes@,
        }
    }
}

} // verus!
