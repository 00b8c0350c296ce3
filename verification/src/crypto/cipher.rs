//! AES-256-GCM, as the `aes-gcm` crate computes it.

use aes_gcm::aead::{Aead, KeyInit};
use aes_gcm::{Aes256Gcm, Nonce};
use vstd::prelude::*;

verus! {

/// The longest plaintext, in bytes, that `aes-gcm` encrypts (its `P_MAX`).
pub const AES_GCM_MAX_PLAINTEXT: u64 = 68_719_476_736;

/// The length of the authentication tag appended to each ciphertext.
pub const AES_GCM_TAG_LEN: usize = 16;

/// What `Aead::encrypt` of `Aes256Gcm` returns for a key, a 12-byte nonce and
/// a plaintext (no associated data): the ciphertext followed by the tag.
pub uninterp spec fn aes256gcm_seal(key: Seq<u8>, nonce: Seq<u8>, plaintext: Seq<u8>) -> Seq<u8>;

/// What `Aead::decrypt` of `Aes256Gcm` returns for a key, a 12-byte nonce and
/// a ciphertext with its tag (no associated data): the plaintext, or `None`
/// where the tag does not authenticate the ciphertext.
pub uninterp spec fn aes256gcm_open(key: Seq<u8>, nonce: Seq<u8>, ciphertext: Seq<u8>) -> Option<
    Seq<u8>,
>;

/// Calls `Aes256Gcm::new` on `key` and its `Aead::encrypt` with `nonce` and
/// `plaintext`. Claims, as aes-gcm 0.10.3's source shows: it fails exactly
/// on a plaintext longer than `P_MAX`, with the error text "aead::Error";
/// otherwise it returns the named `aes256gcm_seal`, 16 bytes longer than the
/// plaintext, which `Aead::decrypt` with the same key and nonce takes back to
/// the plaintext.
#[verifier::external_body]
pub(crate) fn aes256gcm_encrypt(key: &[u8; 32], nonce: &[u8; 12], plaintext: &[u8]) -> (r: Result<
    Vec<u8>,
    String,
>)
    ensures
        match r {
            Ok(c) => {
                &&& plaintext@.len() <= AES_GCM_MAX_PLAINTEXT
                &&& c@ == aes256gcm_seal(key@, nonce@, plaintext@)
                &&& c@.len() == plaintext@.len() + AES_GCM_TAG_LEN
                &&& aes256gcm_open(key@, nonce@, c@) == Some(plaintext@)
            },
            Err(e) => plaintext@.len() > AES_GCM_MAX_PLAINTEXT && e@ == "aead::Error"@,
        },
{
    Aes256Gcm::new(key.into()).encrypt(Nonce::from_slice(nonce), plaintext).map_err(|e| e.to_string())
}

/// Calls `Aes256Gcm::new` on `key` and its `Aead::decrypt` with `nonce` and
/// `ciphertext`; its error (a failed tag check or a bad length) becomes
/// `None`. Claims that the result is the named `aes256gcm_open`, and, as
/// aead 0.5.2's source shows, that a ciphertext shorter than the tag does
/// not open.
#[verifier::external_body]
pub(crate) fn aes256gcm_decrypt(key: &[u8; 32], nonce: &[u8; 12], ciphertext: &[u8]) -> (r: Option<
    Vec<u8>,
>)
    ensures
        match r {
            Some(p) => aes256gcm_open(key@, nonce@, ciphertext@) == Some(p@),
            None => aes256gcm_open(key@, nonce@, ciphertext@) is None,
        },
        ciphertext@.len() < AES_GCM_TAG_LEN ==> r is None,
{
    Aes256Gcm::new(key.into()).decrypt(Nonce::from_slice(nonce), ciphertext).ok()
}

} // verus!
