//! Standard base64 (with padding), as the `base64` crate computes it.

use base64::engine::general_purpose::STANDARD;
use base64::Engine;
use vstd::prelude::*;

verus! {

/// The character of the standard base64 alphabet for a 6-bit value:
/// `A`-`Z`, `a`-`z`, `0`-`9`, `+`, `/`.
pub open spec fn base64_char(v: int) -> char {
    if v < 26 {
        (65 + v) as char
    } else if v < 52 {
        (97 + v - 26) as char
    } else if v < 62 {
        (48 + v - 52) as char
    } else if v == 62 {
        '+'
    } else {
        '/'
    }
}

/// What `STANDARD.encode` returns for some bytes: each group of three bytes
/// becomes four characters of six bits each; a last group of one or two
/// bytes is padded with `=` to four characters.
pub open spec fn base64_encode(bytes: Seq<u8>) -> Seq<char>
    decreases bytes.len(),
{
    if bytes.len() == 0 {
        seq![]
    } else if bytes.len() == 1 {
        let a = bytes[0] as int;
        seq![base64_char(a / 4), base64_char((a % 4) * 16), '=', '=']
    } else if bytes.len() == 2 {
        let a = bytes[0] as int;
        let b = bytes[1] as int;
        seq![base64_char(a / 4), base64_char((a % 4) * 16 + b / 16), base64_char((b % 16) * 4), '=']
    } else {
        let a = bytes[0] as int;
        let b = bytes[1] as int;
        let c = bytes[2] as int;
        seq![
            base64_char(a / 4),
            base64_char((a % 4) * 16 + b / 16),
            base64_char((b % 16) * 4 + c / 64),
            base64_char(c % 64),
        ] + base64_encode(bytes.subrange(3, bytes.len() as int))
    }
}

/// What `STANDARD.decode` returns for a text: the bytes, or the text of its
/// `DecodeError`.
pub uninterp spec fn base64_decode(text: Seq<char>) -> Result<Seq<u8>, Seq<char>>;

/// Calls `STANDARD.encode`. Claims the encoding that `base64_encode`
/// states, and that
/// `STANDARD.decode` takes the text back to the bytes (the crate's round-trip
/// tests check this for the padded standard engine).
#[verifier::external_body]
pub(crate) fn b64_encode(bytes: &[u8]) -> (r: String)
    ensures
        r@ == base64_encode(bytes@),
        base64_decode(r@) is Ok && base64_decode(r@)->Ok_0 == bytes@,
{
    STANDARD.encode(bytes)
}

/// Calls `STANDARD.decode`; its `DecodeError` becomes that error's text.
/// Claims only that the result is the named `base64_decode`.
#[verifier::external_body]
pub(crate) fn b64_decode(text: &str) -> (r: Result<Vec<u8>, String>)
    ensures
        match r {
            Ok(v) => base64_decode(text@) matches Ok(b) && b == v@,
            Err(e) => base64_decode(text@) matches Err(t) && t == e@,
        },
{
    STANDARD.decode(text).map_err(|e| e.to_string())
}

} // verus!
