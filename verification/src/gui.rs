//! What the graphical front end shows of the vault.

use vstd::prelude::*;

use crate::entry::{Entry, EntryView};
use crate::vault::Vault;

verus! {

/// An entry as the front end receives it.
pub struct EntryResponse {
    pub name: String,
    pub username: String,
    pub password: String,
    pub url: String,
    pub notes: String,
}

impl View for EntryResponse {
    type V = EntryView;

    open spec fn view(&self) -> EntryView {
        EntryView {
            name: self.name@,
            username: self.username@,
            password: self.password@,
            url: self.url@,
            notes: self.notes@,
        }
    }
}

impl<'a> From<&'a Entry> for EntryResponse {
    /// A copy of each field of `e`.
    fn from(e: &'a Entry) -> (r: EntryResponse) {
        EntryResponse {
            name: e.name.clone(),
            username: e.username.clone(),
            password: e.password.clone(),
            url: e.url.clone(),
            notes: e.notes.clone(),
        }
    }
}

impl<'a> vstd::std_specs::convert::FromSpecImpl<&'a Entry> for EntryResponse {
    open spec fn obeys_from_spec() -> bool {
        true
    }

    open spec fn from_spec(e: &'a Entry) -> EntryResponse {
        EntryResponse {
            name: e.name,
            username: e.username,
            password: e.password,
            url: e.url,
            notes: e.notes,
        }
    }
}

/// Every entry of the vault, in order, as the front end receives it.
pub fn entry_responses(vault: &Vault) -> (r: Vec<EntryResponse>)
    ensures
        r@.map_values(|e: EntryResponse| e@) == vault@,
{
    let mut out: Vec<EntryResponse> = Vec::new();
    let mut i: usize = 0;
    while i < vault.entries.len()
        invariant
            0 <= i <= vault.entries.len(),
            out@.len() == i,
            forall|k: int| 0 <= k < i ==> (#[trigger] out@[k])@ == vault@[k],
        decreases vault.entries.len() - i,
    {
        let resp = EntryResponse::from(&vault.entries[i]);
        out.push(resp);
        i += 1;
    }
    assert(out@.map_values(|e: EntryResponse| e@) =~= vault@);
    out
}

} // verus!
