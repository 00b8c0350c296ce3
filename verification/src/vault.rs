//! The vault: an ordered list of entries, searched by name without regard
//! to case.

use vstd::prelude::*;

use crate::crypto::key_derivation::generate_salt;
use crate::crypto::random::is_random_failure;
use crate::entry::{Entry, EntryView};
use crate::text::{lowercase, same_name, to_lowercase};

verus! {

broadcast use vstd::seq_lib::group_seq_properties;

/// The decrypted contents of a vault file.
pub struct Vault {
    pub entries: Vec<Entry>,
}

impl View for Vault {
    type V = Seq<EntryView>;

    open spec fn view(&self) -> Seq<EntryView> {
        self.entries@.map_values(|e: Entry| e@)
    }
}

/// Whether `e` is found by `name`.
pub open spec fn is_named(e: EntryView, name: Seq<char>) -> bool {
    same_name(e.name, name)
}

/// Whether some entry of `s` is found by `name`.
pub open spec fn has_name(s: Seq<EntryView>, name: Seq<char>) -> bool {
    exists|i: int| 0 <= i < s.len() && is_named(#[trigger] s[i], name)
}

/// `i` is the first position of `s` whose entry is found by `name`.
pub open spec fn is_first_named(s: Seq<EntryView>, name: Seq<char>, i: int) -> bool {
    &&& 0 <= i < s.len()
    &&& is_named(s[i], name)
    &&& forall|j: int| 0 <= j < i ==> !is_named(#[trigger] s[j], name)
}

/// The position of the entry that a search for `name` finds (meaningful
/// where `has_name(s, name)`).
pub open spec fn position_of(s: Seq<EntryView>, name: Seq<char>) -> int {
    choose|i: int| is_first_named(s, name, i)
}

/// The test that `delete` keeps an entry by.
pub open spec fn not_named(name: Seq<char>) -> spec_fn(EntryView) -> bool {
    |e: EntryView| !is_named(e, name)
}

/// `s` with its entry at `i` renamed to `name`.
pub open spec fn renamed_at(s: Seq<EntryView>, i: int, name: Seq<char>) -> Seq<EntryView> {
    s.update(i, EntryView { name: name, ..s[i] })
}

/// A first match at `i` is the one that `position_of` picks.
pub proof fn lemma_position_of(s: Seq<EntryView>, name: Seq<char>, i: int)
    requires
        is_first_named(s, name, i),
    ensures
        position_of(s, name) == i,
        has_name(s, name),
{
    let k = position_of(s, name);
    assert(is_first_named(s, name, k));
    if k < i {
        assert(!is_named(s[k], name));
    } else if i < k {
        assert(!is_named(s[i], name));
    }
}

/// Wherever some entry of `s` is found by `name`, a first one is.
pub proof fn first_position(s: Seq<EntryView>, name: Seq<char>, w: int) -> (p: int)
    requires
        0 <= w < s.len(),
        is_named(s[w], name),
    ensures
        is_first_named(s, name, p),
    decreases w,
{
    if exists|j: int| 0 <= j < w && is_named(#[trigger] s[j], name) {
        let j = choose|j: int| 0 <= j < w && is_named(#[trigger] s[j], name);
        first_position(s, name, j)
    } else {
        w
    }
}

/// Wherever `name` finds an entry, `position_of` is the first such one.
pub proof fn lemma_has_name(s: Seq<EntryView>, name: Seq<char>)
    requires
        has_name(s, name),
    ensures
        is_first_named(s, name, position_of(s, name)),
{
    let w = choose|w: int| 0 <= w < s.len() && is_named(#[trigger] s[w], name);
    let p = first_position(s, name, w);
    lemma_position_of(s, name, p);
}

/// Message for a name that no entry has.
pub open spec fn not_found_text(name: Seq<char>) -> Seq<char> {
    "Entry '"@ + name + "' not found."@
}

/// Message for a name that an entry already has.
pub open spec fn exists_text(name: Seq<char>) -> Seq<char> {
    "Entry '"@ + name + "' already exists."@
}

/// Builds `not_found_text(name)`.
pub fn entry_not_found(name: &str) -> (r: String)
    ensures
        r@ == not_found_text(name@),
{
    let mut s = String::from_str("Entry '");
    s.append(name);
    s.append("' not found.");
    s
}

/// Builds `exists_text(name)`.
pub fn entry_exists(name: &str) -> (r: String)
    ensures
        r@ == exists_text(name@),
{
    let mut s = String::from_str("Entry '");
    s.append(name);
    s.append("' already exists.");
    s
}

impl Vault {
    /// An empty vault.
    pub fn new() -> (v: Vault)
        ensures
            v@ == Seq::<EntryView>::empty(),
    {
        Vault { entries: Vec::new() }
    }

    /// Appends `entry`, whatever its name.
    pub fn add(&mut self, entry: Entry)
        ensures
            final(self)@ == old(self)@.push(entry@),
    {
        self.entries.push(entry);
        assert(self@ =~= old(self)@.push(entry@));
    }

    /// The position of the first entry found by `name`, if any.
    fn position(&self, name: &str) -> (r: Option<usize>)
        ensures
            match r {
                Some(i) => is_first_named(self@, name@, i as int),
                None => !has_name(self@, name@),
            },
    {
        let key = to_lowercase(name);
        let mut i: usize = 0;
        while i < self.entries.len()
            invariant
                0 <= i <= self.entries.len(),
                key@ == lowercase(name@),
                forall|j: int| 0 <= j < i ==> !is_named(#[trigger] self@[j], name@),
            decreases self.entries.len() - i,
        {
            let k = to_lowercase(self.entries[i].name.as_str());
            if k == key {
                assert(is_named(self@[i as int], name@));
                return Some(i);
            }
            assert(!is_named(self@[i as int], name@));
            i += 1;
        }
        proof {
            assert forall|j: int| 0 <= j < self@.len() implies !is_named(#[trigger] self@[j], name@) by {}
        }
        None
    }

    /// The first entry found by `name`.
    pub fn get(&self, name: &str) -> (r: Option<&Entry>)
        ensures
            match r {
                Some(e) => has_name(self@, name@) && e@ == self@[position_of(self@, name@)],
                None => !has_name(self@, name@),
            },
    {
        match self.position(name) {
            Some(i) => {
                proof {
                    lemma_position_of(self@, name@, i as int);
                }
                Some(&self.entries[i])
            },
            None => None,
        }
    }

    /// Removes every entry found by `name`; tells whether there was one.
    pub fn delete(&mut self, name: &str) -> (removed: bool)
        ensures
            final(self)@ == old(self)@.filter(not_named(name@)),
            removed == has_name(old(self)@, name@),
    {
        let ghost start = self@;
        let ghost keep = not_named(name@);
        let key = to_lowercase(name);
        let mut removed = false;
        let mut i: usize = 0;
        let ghost mut j: int = 0;
        proof {
            assert(start.take(0).filter(keep) =~= Seq::<EntryView>::empty()) by {
                reveal(Seq::filter);
            }
            assert(start.take(0).filter(keep) + start.skip(0) =~= self@);
        }
        while i < self.entries.len()
            invariant
                key@ == lowercase(name@),
                keep == not_named(name@),
                0 <= j <= start.len(),
                self@ == start.take(j).filter(keep) + start.skip(j),
                i == start.take(j).filter(keep).len(),
                removed == has_name(start.take(j), name@),
            decreases self.entries.len() - i,
        {
            let ghost before = self@;
            let ghost kept = start.take(j).filter(keep);
            proof {
                assert(start.take(j + 1) =~= start.take(j).push(start[j]));
                assert(before[i as int] == start[j]);
                start.take(j).lemma_filter_push(start[j], keep);
            }
            let k = to_lowercase(self.entries[i].name.as_str());
            if k == key {
                self.entries.remove(i);
                removed = true;
                proof {
                    assert(self@ =~= before.remove(i as int));
                    assert(self@ =~= kept + start.skip(j + 1));
                    assert(is_named(start.take(j + 1)[j], name@));
                }
            } else {
                i += 1;
                proof {
                    assert(self@ =~= kept.push(start[j]) + start.skip(j + 1));
                    if has_name(start.take(j + 1), name@) && !has_name(start.take(j), name@) {
                        let w = choose|w: int| 0 <= w < start.take(j + 1).len() && is_named(#[trigger] start.take(j + 1)[w], name@);
                        assert(start.take(j)[w] == start.take(j + 1)[w]);
                    }
                }
            }
            proof {
                j = j + 1;
            }
        }
        proof {
            assert(start.take(j) =~= start);
        }
        removed
    }

    /// Gives the first entry found by `old_name` the name `new_name`;
    /// tells whether there was such an entry.
    pub fn rename(&mut self, old_name: &str, new_name: &str) -> (done: bool)
        ensures
            done == has_name(old(self)@, old_name@),
            done ==> final(self)@ == renamed_at(
                old(self)@,
                position_of(old(self)@, old_name@),
                new_name@,
            ),
            done ==> {
                let p = position_of(old(self)@, old_name@);
                &&& 0 <= p < old(self)@.len()
                &&& final(self)@.len() == old(self)@.len()
                &&& final(self)@[p].name == new_name@
                &&& final(self)@[p].username == old(self)@[p].username
                &&& final(self)@[p].password == old(self)@[p].password
                &&& final(self)@[p].url == old(self)@[p].url
                &&& final(self)@[p].notes == old(self)@[p].notes
                &&& forall|j: int|
                    0 <= j < old(self)@.len() && j != p ==> #[trigger] final(self)@[j] == old(self)@[j]
            },
            !done ==> final(self)@ == old(self)@,
    {
        match self.position(old_name) {
            Some(i) => {
                proof {
                    lemma_position_of(self@, old_name@, i as int);
                }
                let ghost before = self@;
                self.entries[i].name = String::from_str(new_name);
                proof {
                    assert(self@ =~= renamed_at(before, i as int, new_name@));
                }
                true
            },
            None => false,
        }
    }

    /// Replaces the first entry found by `old_name` with `entry`, or fails
    /// with `not_found_text(old_name)` when there is none.
    pub fn update(&mut self, old_name: &str, entry: Entry) -> (r: Result<(), String>)
        ensures
            match r {
                Ok(()) => has_name(old(self)@, old_name@) && final(self)@ == old(self)@.update(
                    position_of(old(self)@, old_name@),
                    entry@,
                ),
                Err(e) => !has_name(old(self)@, old_name@) && final(self)@ == old(self)@
                    && e@ == not_found_text(old_name@),
            },
    {
        match self.position(old_name) {
            Some(i) => {
                proof {
                    lemma_position_of(self@, old_name@, i as int);
                }
                let ghost before = self@;
                self.entries[i] = entry;
                proof {
                    assert(self@ =~= before.update(i as int, entry@));
                }
                Ok(())
            },
            None => Err(entry_not_found(old_name)),
        }
    }

    /// Appends `entry` unless an entry is already found by its name, in
    /// which case it fails with `exists_text`.
    pub fn add_new(&mut self, entry: Entry) -> (r: Result<(), String>)
        ensures
            match r {
                Ok(()) => !has_name(old(self)@, entry.name@) && final(self)@ == old(self)@.push(entry@),
                Err(e) => has_name(old(self)@, entry.name@) && final(self)@ == old(self)@
                    && e@ == exists_text(entry.name@),
            },
    {
        match self.position(entry.name.as_str()) {
            Some(_) => Err(entry_exists(entry.name.as_str())),
            None => {
                self.add(entry);
                Ok(())
            },
        }
    }

    /// All entries, in the order they were added.
    pub fn list(&self) -> (r: &[Entry])
        ensures
            r@.map_values(|e: Entry| e@) == self@,
    {
        self.entries.as_slice()
    }
}

/// The message for a vault that is already there.
pub open spec fn vault_exists_text() -> Seq<char> {
    "Vault already exists. Delete it first or use 'reset-master'."@
}

/// Starts a new vault: fails when one already exists (`vault_exists`, as
/// the caller found on disk); otherwise gives an empty vault and a fresh
/// random salt to seal it with, or a `random_failure` text where the random
/// source gives no bytes.
pub fn init_vault(vault_exists: bool) -> (r: Result<(Vault, [u8; 32]), String>)
    ensures
        match r {
            Ok((v, _)) => !vault_exists && v@ == Seq::<EntryView>::empty(),
            Err(e) => if vault_exists {
                e@ == vault_exists_text()
            } else {
                is_random_failure(e@)
            },
        },
{
    if vault_exists {
        return Err(String::from_str("Vault already exists. Delete it first or use 'reset-master'."));
    }
    let vault = Vault::new();
    let salt = generate_salt()?;
    Ok((vault, salt))
}

} // verus!
