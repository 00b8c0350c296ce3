//! Sealing a vault's bytes under the master password, and opening them
//! again.

use vstd::prelude::*;
use vstd::utf8::encode_utf8;

use crate::crypto::cipher::{aes256gcm_open, aes256gcm_seal, AES_GCM_MAX_PLAINTEXT, AES_GCM_TAG_LEN};
use crate::crypto::encoding::base64_encode;
use crate::crypto::decrypt::{decrypt, parse_encrypted_vault, parsed, wrong_password_text};
use crate::crypto::encrypt::{build_encrypted_vault, encrypt, encryption_error_text, EncryptedVault};
use crate::crypto::random::is_random_failure;
use crate::crypto::key_derivation::{derive_key, derive_key_error, derived_key};

verus! {

/// What opening a sealed vault with a master password gives: the vault's
/// bytes and its salt, or the first error met.
pub open spec fn unsealed(vault: EncryptedVault, master_password: Seq<char>) -> Result<
    (Seq<u8>, Seq<u8>),
    Seq<char>,
> {
    let password = encode_utf8(master_password);
    match parsed(vault) {
        Err(e) => Err(e),
        Ok((salt, nonce, ciphertext)) => match derive_key_error(password, salt) {
            Some(e) => Err(e),
            None => match aes256gcm_open(derived_key(password, salt), nonce, ciphertext) {
                None => Err(wrong_password_text()),
                Some(p) => Ok((p, salt)),
            },
        },
    }
}

/// The error that sealing gives, if any, for a master password, a salt and
/// a plaintext length.
pub open spec fn seal_error(master_password: Seq<char>, salt: Seq<u8>, len: nat) -> Option<
    Seq<char>,
> {
    match derive_key_error(encode_utf8(master_password), salt) {
        Some(e) => Some(e),
        None => if len > AES_GCM_MAX_PLAINTEXT {
            Some(encryption_error_text())
        } else {
            None
        },
    }
}

/// `v` is the text form of `plaintext` sealed under the key derived from
/// `master_password` and `salt` with the 12-byte nonce `n`: each field is
/// the base64 text of salt, nonce and ciphertext (with its tag).
pub open spec fn sealed_text(
    v: EncryptedVault,
    master_password: Seq<char>,
    salt: Seq<u8>,
    n: Seq<u8>,
    plaintext: Seq<u8>,
) -> bool {
    let c = aes256gcm_seal(derived_key(encode_utf8(master_password), salt), n, plaintext);
    &&& n.len() == 12
    &&& c.len() == plaintext.len() + AES_GCM_TAG_LEN
    &&& v.salt@ == base64_encode(salt)
    &&& v.nonce@ == base64_encode(n)
    &&& v.ciphertext@ == base64_encode(c)
    &&& parsed(v) == Ok::<(Seq<u8>, Seq<u8>, Seq<u8>), Seq<char>>((salt, n, c))
}

/// Seals `plaintext` under a key derived from `master_password` and `salt`,
/// with a fresh random nonce `n`: the result holds the base64 text of the
/// salt, of `n` and of the ciphertext with its tag. Opening it with the same
/// master password gives back `plaintext` and `salt`. Where the random
/// source gives no nonce, it fails with a `random_failure` text.
pub fn seal_vault(plaintext: &[u8], master_password: &str, salt: &[u8]) -> (r: Result<
    EncryptedVault,
    String,
>)
    ensures
        match r {
            Ok(v) => {
                &&& seal_error(master_password@, salt@, plaintext@.len()) is None
                &&& unsealed(v, master_password@) == Ok::<(Seq<u8>, Seq<u8>), Seq<char>>(
                    (plaintext@, salt@),
                )
                &&& exists|n: Seq<u8>| #[trigger] sealed_text(v, master_password@, salt@, n, plaintext@)
            },
            Err(e) => match derive_key_error(encode_utf8(master_password@), salt@) {
                Some(d) => e@ == d,
                None => is_random_failure(e@) || seal_error(
                    master_password@,
                    salt@,
                    plaintext@.len(),
                ) == Some(e@),
            },
        },
        encode_utf8(master_password@).len() <= 0xFFFF_FFFF && 8 <= salt@.len() <= 0xFFFF_FFFF
            && plaintext@.len() <= AES_GCM_MAX_PLAINTEXT ==> (r is Ok || (r matches Err(e)
            && is_random_failure(e@))),
{
    let key = derive_key(master_password.as_bytes(), salt)?;
    let (ciphertext, nonce) = encrypt(plaintext, &key)?;
    let v = build_encrypted_vault(salt, &nonce, &ciphertext);
    assert(sealed_text(v, master_password@, salt@, nonce@, plaintext@));
    Ok(v)
}

/// Opens a sealed vault with `master_password`: its bytes and its salt.
pub fn unseal_vault(vault: &EncryptedVault, master_password: &str) -> (r: Result<
    (Vec<u8>, Vec<u8>),
    String,
>)
    ensures
        match r {
            Ok((p, s)) => unsealed(*vault, master_password@) == Ok::<
                (Seq<u8>, Seq<u8>),
                Seq<char>,
            >((p@, s@)),
            Err(e) => unsealed(*vault, master_password@) == Err::<(Seq<u8>, Seq<u8>), Seq<char>>(
                e@,
            ),
        },
{
    let (salt, nonce, ciphertext) = parse_encrypted_vault(vault)?;
    let key = derive_key(master_password.as_bytes(), salt.as_slice())?;
    let plaintext = decrypt(ciphertext.as_slice(), &key, &nonce)?;
    Ok((plaintext, salt))
}

} // verus!
