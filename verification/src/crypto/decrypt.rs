//! Unsealing: decryption, and reading the text form of a sealed vault.

use vstd::prelude::*;

use super::cipher::{aes256gcm_decrypt, aes256gcm_open, AES_GCM_TAG_LEN};
use super::encoding::{b64_decode, base64_decode};
use super::encrypt::EncryptedVault;

verus! {

/// The error text of a failed decryption: a wrong key is what makes the
/// tag check fail.
pub open spec fn wrong_password_text() -> Seq<char> {
    "Invalid master password"@
}

/// Decrypts `ciphertext` under `key` and `nonce`; fails with
/// `wrong_password_text` where the tag does not authenticate it, and so on
/// any ciphertext shorter than the tag.
pub fn decrypt(ciphertext: &[u8], key: &[u8; 32], nonce: &[u8; 12]) -> (r: Result<Vec<u8>, String>)
    ensures
        match r {
            Ok(p) => aes256gcm_open(key@, nonce@, ciphertext@) == Some(p@),
            Err(e) => aes256gcm_open(key@, nonce@, ciphertext@) is None && e@ == wrong_password_text(),
        },
        ciphertext@.len() < AES_GCM_TAG_LEN ==> r is Err,
{
    match aes256gcm_decrypt(key, nonce, ciphertext) {
        Some(p) => Ok(p),
        None => Err(String::from_str("Invalid master password")),
    }
}

/// A decoding's result by views.
pub open spec fn decoded_view(r: Result<Vec<u8>, String>) -> Result<Seq<u8>, Seq<char>> {
    match r {
        Ok(v) => Ok(v@),
        Err(e) => Err(e@),
    }
}

/// What the three decoded fields of a sealed vault make: salt, nonce and
/// ciphertext, or the error of the first field that is not valid (a nonce
/// must have 12 bytes).
pub open spec fn fields_from(
    salt: Result<Seq<u8>, Seq<char>>,
    nonce: Result<Seq<u8>, Seq<char>>,
    ciphertext: Result<Seq<u8>, Seq<char>>,
) -> Result<(Seq<u8>, Seq<u8>, Seq<u8>), Seq<char>> {
    match salt {
        Err(e) => Err("invalid salt: "@ + e),
        Ok(s) => match nonce {
            Err(e) => Err("invalid nonce: "@ + e),
            Ok(n) => if n.len() != 12 {
                Err("invalid nonce length"@)
            } else {
                match ciphertext {
                    Err(e) => Err("invalid ciphertext: "@ + e),
                    Ok(c) => Ok((s, n, c)),
                }
            },
        },
    }
}

/// What reading the three text fields of a sealed vault gives: salt, nonce
/// and ciphertext, or the error of the first field that is not valid.
pub open spec fn parsed_fields(salt: Seq<char>, nonce: Seq<char>, ciphertext: Seq<char>) -> Result<
    (Seq<u8>, Seq<u8>, Seq<u8>),
    Seq<char>,
> {
    fields_from(base64_decode(salt), base64_decode(nonce), base64_decode(ciphertext))
}

/// `parsed_fields` of a sealed vault's three fields.
pub open spec fn parsed(vault: EncryptedVault) -> Result<(Seq<u8>, Seq<u8>, Seq<u8>), Seq<char>> {
    parsed_fields(vault.salt@, vault.nonce@, vault.ciphertext@)
}

/// Prefixes `detail` with `context`.
fn prefixed(context: &str, detail: String) -> (r: String)
    ensures
        r@ == context@ + detail@,
{
    let mut msg = String::from_str(context);
    msg.append(detail.as_str());
    msg
}

/// Puts together the three decoded fields of a sealed vault: the first
/// decoding error, prefixed with its field, or a nonce that is not 12 bytes
/// long, fails; otherwise salt, nonce and ciphertext.
pub fn from_decoded_fields(
    salt: Result<Vec<u8>, String>,
    nonce: Result<Vec<u8>, String>,
    ciphertext: Result<Vec<u8>, String>,
) -> (r: Result<(Vec<u8>, [u8; 12], Vec<u8>), String>)
    ensures
        match r {
            Ok((s, n, c)) => fields_from(
                decoded_view(salt),
                decoded_view(nonce),
                decoded_view(ciphertext),
            ) == Ok::<(Seq<u8>, Seq<u8>, Seq<u8>), Seq<char>>((s@, n@, c@)),
            Err(e) => fields_from(decoded_view(salt), decoded_view(nonce), decoded_view(ciphertext))
                == Err::<(Seq<u8>, Seq<u8>, Seq<u8>), Seq<char>>(e@),
        },
{
    let salt = match salt {
        Ok(s) => s,
        Err(e) => return Err(prefixed("invalid salt: ", e)),
    };
    let nonce_vec = match nonce {
        Ok(n) => n,
        Err(e) => return Err(prefixed("invalid nonce: ", e)),
    };
    let mut nonce = [0u8; 12];
    if nonce_vec.len() != 12 {
        return Err(String::from_str("invalid nonce length"));
    }
    let mut i: usize = 0;
    while i < 12
        invariant
            nonce_vec@.len() == 12,
            0 <= i <= 12,
            forall|k: int| 0 <= k < i ==> nonce@[k] == nonce_vec@[k],
        decreases 12 - i,
    {
        nonce[i] = nonce_vec[i];
        i += 1;
    }
    assert(nonce@ =~= nonce_vec@);
    let ciphertext = match ciphertext {
        Ok(c) => c,
        Err(e) => return Err(prefixed("invalid ciphertext: ", e)),
    };
    Ok((salt, nonce, ciphertext))
}

/// Reads salt, nonce and ciphertext from their text form.
pub fn parse_encrypted_vault(vault: &EncryptedVault) -> (r: Result<(Vec<u8>, [u8; 12], Vec<u8>), String>)
    ensures
        match r {
            Ok((s, n, c)) => parsed(*vault) == Ok::<(Seq<u8>, Seq<u8>, Seq<u8>), Seq<char>>(
                (s@, n@, c@),
            ),
            Err(e) => parsed(*vault) == Err::<(Seq<u8>, Seq<u8>, Seq<u8>), Seq<char>>(e@),
        },
{
    let salt = b64_decode(vault.salt.as_str());
    let nonce = b64_decode(vault.nonce.as_str());
    let ciphertext = b64_decode(vault.ciphertext.as_str());
    from_decoded_fields(salt, nonce, ciphertext)
}

} // verus!
