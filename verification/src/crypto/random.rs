//! Bytes from the operating system's random source.

use rand::RngCore;
use vstd::prelude::*;

verus! {

/// Calls `rand::rngs::OsRng.try_fill_bytes` on `buf`; its error becomes
/// that error's text. What it writes depends on the operating system's
/// random source, and so does whether it fails, so nothing is claimed of
/// either; the buffer keeps its length.
#[verifier::external_body]
fn try_fill_random(buf: &mut [u8]) -> (r: Result<(), String>)
    ensures
        final(buf)@.len() == old(buf)@.len(),
{
    rand::rngs::OsRng.try_fill_bytes(buf).map_err(|e| e.to_string())
}

/// The error text of a failed read of the random source, given what the
/// operating system reported. Closed, so that outside this module a text is
/// known to be one only where `fill_random` gave it: no other code can pass
/// off an error of its own as a failure of the random source.
pub closed spec fn random_failure(detail: Seq<char>) -> Seq<char> {
    "random source failed: "@ + detail
}

/// Whether `text` is the error text of a failed read of the random source.
pub closed spec fn is_random_failure(text: Seq<char>) -> bool {
    exists|detail: Seq<char>| text == #[trigger] random_failure(detail)
}

/// The text of a failed read of the random source starts with
/// "random source failed: ".
pub proof fn random_failure_text(text: Seq<char>)
    requires
        is_random_failure(text),
    ensures
        exists|detail: Seq<char>| text == "random source failed: "@ + detail,
{
    let d = choose|detail: Seq<char>| text == #[trigger] random_failure(detail);
    assert(text == "random source failed: "@ + d);
}

/// Fills `buf` from the operating system's random source, or fails with a
/// `random_failure` text where that source gives no bytes.
pub fn fill_random(buf: &mut [u8]) -> (r: Result<(), String>)
    ensures
        final(buf)@.len() == old(buf)@.len(),
        r matches Err(e) ==> is_random_failure(e@),
{
    match try_fill_random(buf) {
        Ok(()) => Ok(()),
        Err(detail) => {
            let mut msg = String::from_str("random source failed: ");
            msg.append(detail.as_str());
            assert(msg@ == random_failure(detail@));
            Err(msg)
        },
    }
}

} // verus!
