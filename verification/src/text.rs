//! String operations that the vault's rules are written in.

use vstd::prelude::*;

verus! {

/// What `str::to_lowercase` returns for a string: its characters mapped
/// through Unicode's lowercase mapping (context-dependent for final sigma).
pub uninterp spec fn lowercase(s: Seq<char>) -> Seq<char>;

/// Calls `str::to_lowercase`. Its result depends on the characters of `s`
/// alone (no locale), so it is given the name `lowercase`; nothing more is
/// claimed of it.
#[verifier::external_body]
pub(crate) fn to_lowercase(s: &str) -> (r: String)
    ensures
        r@ == lowercase(s@),
{
    s.to_lowercase()
}

/// Whether two names are the same name once case is ignored.
pub open spec fn same_name(a: Seq<char>, b: Seq<char>) -> bool {
    lowercase(a) == lowercase(b)
}

} // verus!
