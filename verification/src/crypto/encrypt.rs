//! Sealing: encryption under a fresh nonce, and the text form of a sealed
//! vault.

use vstd::prelude::*;

use super::cipher::{
    aes256gcm_encrypt, aes256gcm_open, aes256gcm_seal, AES_GCM_MAX_PLAINTEXT, AES_GCM_TAG_LEN,
};
use super::decrypt::parsed_fields;
use super::encoding::{b64_encode, base64_encode};
use super::random::{fill_random, is_random_failure};

verus! {

/// A sealed vault as it is written to disk: salt, nonce and ciphertext,
/// each in standard base64.
pub struct EncryptedVault {
    pub salt: String,
    pub nonce: String,
    pub ciphertext: String,
}

/// The error text of a failed encryption.
pub open spec fn encryption_error_text() -> Seq<char> {
    "encryption failed: "@ + "aead::Error"@
}

/// Encrypts `plaintext` under `key` and the given `nonce`. Fails exactly on
/// a plaintext longer than `AES_GCM_MAX_PLAINTEXT` bytes. What it returns is
/// the ciphertext followed by the 16-byte tag, and is taken back to the plaintext by decryption with the same key and nonce.
pub fn encrypt_with_nonce(plaintext: &[u8], key: &[u8; 32], nonce: &[u8; 12]) -> (r: Result<
    Vec<u8>,
    String,
>)
    ensures
        match r {
            Ok(c) => {
                &&& plaintext@.len() <= AES_GCM_MAX_PLAINTEXT
                &&& c@ == aes256gcm_seal(key@, nonce@, plaintext@)
                &&& c@.len() == plaintext@.len() + AES_GCM_TAG_LEN
                &&& aes256gcm_open(key@, nonce@, c@) == Some(plaintext@)
            },
            Err(e) => plaintext@.len() > AES_GCM_MAX_PLAINTEXT && e@ == encryption_error_text(),
        },
{
    match aes256gcm_encrypt(key, nonce, plaintext) {
        Ok(c) => Ok(c),
        Err(e) => {
            let mut msg = String::from_str("encryption failed: ");
            msg.append(e.as_str());
            Err(msg)
        },
    }
}

/// Encrypts `plaintext` under `key` and a nonce drawn from the operating
/// system's random source, and returns the ciphertext with that nonce. It
/// fails with a `random_failure` text where that source gives no bytes, and
/// otherwise exactly as `encrypt_with_nonce` does.
pub fn encrypt(plaintext: &[u8], key: &[u8; 32]) -> (r: Result<(Vec<u8>, [u8; 12]), String>)
    ensures
        match r {
            Ok((c, n)) => {
                &&& plaintext@.len() <= AES_GCM_MAX_PLAINTEXT
                &&& c@ == aes256gcm_seal(key@, n@, plaintext@)
                &&& c@.len() == plaintext@.len() + AES_GCM_TAG_LEN
                &&& aes256gcm_open(key@, n@, c@) == Some(plaintext@)
            },
            Err(e) => is_random_failure(e@) || (plaintext@.len() > AES_GCM_MAX_PLAINTEXT
                && e@ == encryption_error_text()),
        },
        plaintext@.len() <= AES_GCM_MAX_PLAINTEXT ==> (r is Ok || (r matches Err(e)
            && is_random_failure(e@))),
{
    let mut nonce = [0u8; 12];
    fill_random(&mut nonce)?;
    let c = encrypt_with_nonce(plaintext, key, &nonce)?;
    Ok((c, nonce))
}

/// Puts salt, nonce and ciphertext in their text form. Reading that form
/// back with `parse_encrypted_vault` gives the same three values.
pub fn build_encrypted_vault(salt: &[u8], nonce: &[u8; 12], ciphertext: &[u8]) -> (v: EncryptedVault)
    ensures
        v.salt@ == base64_encode(salt@),
        v.nonce@ == base64_encode(nonce@),
        v.ciphertext@ == base64_encode(ciphertext@),
        parsed_fields(v.salt@, v.nonce@, v.ciphertext@) == Ok::<
            (Seq<u8>, Seq<u8>, Seq<u8>),
            Seq<char>,
        >((salt@, nonce@, ciphertext@)),
{
    let s = b64_encode(salt);
    let n = b64_encode(nonce);
    let c = b64_encode(ciphertext);
    EncryptedVault { salt: s, nonce: n, ciphertext: c }
}

} // verus!
