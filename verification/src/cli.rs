//! The commands of the command-line tool, and the checks they make on what
//! the user types.

use vstd::prelude::*;
use vstd::utf8::encode_utf8;

use crate::entry::Entry;
use crate::text::{lowercase, to_lowercase};
use crate::vault::{exists_text, has_name, Vault};

verus! {

/// The parsed command line.
pub struct Cli {
    pub command: Commands,
}

/// What the tool is asked to do.
pub enum Commands {
    /// Initialize a new vault
    Init,
    /// Add a new entry
    Add,
    /// Retrieve an entry
    Get { name: String },
    /// List all entry names
    List,
    /// Delete an entry
    Delete { name: String },
    /// Rename an entry
    Rename { old_name: String, new_name: String },
    /// Change the master password
    ChangeMaster,
    /// Reset master password (destroys all data)
    ResetMaster,
    /// Launch the GUI
    Gui,
}

/// The fewest bytes a master password may have.
pub const MIN_MASTER_PASSWORD_LEN: usize = 8;

/// The error, if any, for a new master password and its confirmation: they
/// must be the same text, of at least `MIN_MASTER_PASSWORD_LEN` bytes.
pub open spec fn new_master_password_error(password: Seq<char>, confirm: Seq<char>) -> Option<
    Seq<char>,
> {
    if password != confirm {
        Some("Passwords do not match."@)
    } else if encode_utf8(password).len() < MIN_MASTER_PASSWORD_LEN {
        Some("Master password must be at least 8 characters."@)
    } else {
        None
    }
}

/// A new master password is refused exactly when it differs from its
/// confirmation or has fewer than 8 bytes; any longer one is accepted.
pub proof fn new_master_password_accepts(password: Seq<char>, confirm: Seq<char>)
    ensures
        new_master_password_error(password, confirm) is None <==> (password == confirm
            && encode_utf8(password).len() >= 8),
{
}

/// Checks a new master password against its confirmation and its length.
pub fn check_new_master_password(password: &str, confirm: &str) -> (r: Result<(), String>)
    ensures
        match r {
            Ok(()) => new_master_password_error(password@, confirm@) is None,
            Err(e) => new_master_password_error(password@, confirm@) == Some(e@),
        },
        r is Ok <==> (password@ == confirm@ && encode_utf8(password@).len() >= 8),
{
    let p = String::from_str(password);
    let c = String::from_str(confirm);
    if p != c {
        return Err(String::from_str("Passwords do not match."));
    }
    if password.as_bytes().len() < MIN_MASTER_PASSWORD_LEN {
        return Err(String::from_str("Master password must be at least 8 characters."));
    }
    Ok(())
}

/// Whether `c` has Unicode's `White_Space` property, by which
/// `char::is_whitespace` and `str::trim` go.
pub open spec fn is_white_space(c: char) -> bool {
    let u = c as u32;
    ||| 0x9 <= u <= 0xD
    ||| u == 0x20
    ||| u == 0x85
    ||| u == 0xA0
    ||| u == 0x1680
    ||| 0x2000 <= u <= 0x200A
    ||| u == 0x2028
    ||| u == 0x2029
    ||| u == 0x202F
    ||| u == 0x205F
    ||| u == 0x3000
}

/// `s` without its leading white space.
pub open spec fn trim_start(s: Seq<char>) -> Seq<char>
    decreases s.len(),
{
    if s.len() > 0 && is_white_space(s[0]) {
        trim_start(s.drop_first())
    } else {
        s
    }
}

/// `s` without its trailing white space.
pub open spec fn trim_end(s: Seq<char>) -> Seq<char>
    decreases s.len(),
{
    if s.len() > 0 && is_white_space(s.last()) {
        trim_end(s.drop_last())
    } else {
        s
    }
}

/// What `str::trim` returns for a string: the string without its leading
/// and trailing white space.
pub open spec fn trimmed(s: Seq<char>) -> Seq<char> {
    trim_end(trim_start(s))
}

/// Calls `str::trim`, whose documentation says it removes leading and
/// trailing `White_Space` characters, as `trimmed` states.
#[verifier::external_body]
fn trim(s: &str) -> (r: &str)
    ensures
        r@ == trimmed(s@),
{
    s.trim()
}

/// Whether an answer to a yes/no question says yes: once trimmed and in
/// lower case it is `y`.
pub open spec fn says_yes(answer: Seq<char>) -> bool {
    lowercase(trimmed(answer)) == seq!['y']
}

/// Decides `says_yes`.
pub fn is_confirmed(answer: &str) -> (r: bool)
    ensures
        r == says_yes(answer@),
{
    let lower = to_lowercase(trim(answer));
    let yes = String::from_str("y");
    proof {
        reveal_strlit("y");
        assert(yes@ =~= seq!['y']);
    }
    lower == yes
}

/// The message for an entry without a name.
pub open spec fn empty_name_text() -> Seq<char> {
    "Name cannot be empty."@
}

/// Adds an entry typed in by the user: it must have a name, and no entry
/// may already be found by that name.
pub fn add_checked(vault: &mut Vault, entry: Entry) -> (r: Result<(), String>)
    ensures
        match r {
            Ok(()) => entry.name@.len() > 0 && !has_name(old(vault)@, entry.name@) && final(vault)@
                == old(vault)@.push(entry@),
            Err(e) => final(vault)@ == old(vault)@ && if entry.name@.len() == 0 {
                e@ == empty_name_text()
            } else {
                has_name(old(vault)@, entry.name@) && e@ == exists_text(entry.name@)
            },
        },
{
    if entry.name.as_str().is_empty() {
        return Err(String::from_str("Name cannot be empty."));
    }
    vault.add_new(entry)
}

} // verus!
