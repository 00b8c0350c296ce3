//! The vault key: Argon2id over the master password and the vault's salt.

use vstd::prelude::*;

use super::random::{fill_random, is_random_failure};

verus! {

/// Argon2 memory cost, in KiB blocks.
pub const KDF_MEMORY_KIB: u32 = 65536;

/// Argon2 number of passes.
pub const KDF_ITERATIONS: u32 = 3;

/// Argon2 degree of parallelism.
pub const KDF_PARALLELISM: u32 = 4;

/// The 32 bytes that Argon2id (version 0x13) derives from `password` and
/// `salt` with the given costs, no secret and no associated data.
pub uninterp spec fn argon2id_v13(
    m_cost: u32,
    t_cost: u32,
    p_cost: u32,
    password: Seq<u8>,
    salt: Seq<u8>,
) -> Seq<u8>;

/// The message of the error that `argon2::Params::new` gives for the costs
/// (with a 32-byte output), or `None` where it accepts them.
pub open spec fn argon2_params_error(m_cost: u32, t_cost: u32, p_cost: u32) -> Option<Seq<char>> {
    if m_cost < 8 || m_cost < p_cost * 8 {
        Some("memory cost is too small"@)
    } else if t_cost < 1 {
        Some("time cost is too small"@)
    } else if p_cost < 1 {
        Some("not enough threads"@)
    } else if p_cost > 0xFF_FFFF {
        Some("too many threads"@)
    } else {
        None
    }
}

/// The message of the error that Argon2 gives for the input lengths, or
/// `None` where it accepts them.
pub open spec fn argon2_input_error(password_len: nat, salt_len: nat) -> Option<Seq<char>> {
    if password_len > 0xFFFF_FFFF {
        Some("password is too long"@)
    } else if salt_len < 8 {
        Some("salt is too short"@)
    } else if salt_len > 0xFFFF_FFFF {
        Some("salt is too long"@)
    } else {
        None
    }
}

/// Which step of Argon2 failed, with the text of its error.
pub(crate) enum Argon2Failure {
    /// `Params::new` refused the costs.
    Params(String),
    /// `hash_password_into` refused the password or the salt.
    Hash(String),
}

/// Calls `argon2::Params::new(m_cost, t_cost, p_cost, Some(32))`, then
/// `Argon2::new(Algorithm::Argon2id, Version::V0x13, params)` and its
/// `hash_password_into` with a 32-byte output. Claims, as argon2 0.5.3's
/// source shows: `Params::new` fails exactly as `argon2_params_error` says;
/// the hash then fails exactly on the input lengths of
/// `argon2_input_error`, with that error's text; otherwise the output is the
/// named `argon2id_v13`. `requires` leaves out the costs on which
/// `Params::new` overflows `p_cost * 8`.
#[verifier::external_body]
fn argon2id_v13_hash(
    m_cost: u32,
    t_cost: u32,
    p_cost: u32,
    password: &[u8],
    salt: &[u8],
) -> (r: Result<[u8; 32], Argon2Failure>)
    requires
        m_cost < 8 || p_cost <= 0x1FFF_FFFF,
    ensures
        match r {
            Ok(k) => {
                &&& argon2_params_error(m_cost, t_cost, p_cost) is None
                &&& argon2_input_error(password@.len(), salt@.len()) is None
                &&& k@ == argon2id_v13(m_cost, t_cost, p_cost, password@, salt@)
            },
            Err(Argon2Failure::Params(e)) => argon2_params_error(m_cost, t_cost, p_cost) == Some(e@),
            Err(Argon2Failure::Hash(e)) => argon2_params_error(m_cost, t_cost, p_cost) is None
                && argon2_input_error(password@.len(), salt@.len()) == Some(e@),
        },
{
    let params = argon2::Params::new(m_cost, t_cost, p_cost, Some(32))
        .map_err(|e| Argon2Failure::Params(e.to_string()))?;
    let mut key = [0u8; 32];
    argon2::Argon2::new(argon2::Algorithm::Argon2id, argon2::Version::V0x13, params)
        .hash_password_into(password, salt, &mut key)
        .map_err(|e| Argon2Failure::Hash(e.to_string()))?;
    Ok(key)
}

/// The key that `derive_key` gives for a password and a salt.
pub open spec fn derived_key(password: Seq<u8>, salt: Seq<u8>) -> Seq<u8> {
    argon2id_v13(KDF_MEMORY_KIB, KDF_ITERATIONS, KDF_PARALLELISM, password, salt)
}

/// The error that `derive_key` gives for a password and a salt, if any.
pub open spec fn derive_key_error(password: Seq<u8>, salt: Seq<u8>) -> Option<Seq<char>> {
    match argon2_input_error(password.len(), salt.len()) {
        Some(t) => Some("key derivation failed: "@ + t),
        None => None,
    }
}

/// Derives the vault key from the master password and the salt: Argon2id
/// (version 0x13) with 65536 KiB of memory, 3 passes and 4 lanes. Fails
/// only on a salt shorter than 8 bytes or on a password or salt longer than
/// `u32::MAX` bytes.
pub fn derive_key(master_password: &[u8], salt: &[u8]) -> (r: Result<[u8; 32], String>)
    ensures
        match r {
            Ok(k) => derive_key_error(master_password@, salt@) is None && k@ == derived_key(
                master_password@,
                salt@,
            ),
            Err(e) => derive_key_error(master_password@, salt@) == Some(e@),
        },
        r matches Ok(k) ==> k@ == argon2id_v13(65536, 3, 4, master_password@, salt@),
        master_password@.len() <= 0xFFFF_FFFF && 8 <= salt@.len() <= 0xFFFF_FFFF <==> r is Ok,
{
    match argon2id_v13_hash(KDF_MEMORY_KIB, KDF_ITERATIONS, KDF_PARALLELISM, master_password, salt) {
        Ok(k) => Ok(k),
        Err(Argon2Failure::Params(e)) => {
            let mut msg = String::from_str("argon2 params error: ");
            msg.append(e.as_str());
            Err(msg)
        },
        Err(Argon2Failure::Hash(e)) => {
            let mut msg = String::from_str("key derivation failed: ");
            msg.append(e.as_str());
            Err(msg)
        },
    }
}

/// A fresh salt from the operating system's random source, or a
/// `random_failure` text where that source gives no bytes.
pub fn generate_salt() -> (r: Result<[u8; 32], String>)
    ensures
        r matches Err(e) ==> is_random_failure(e@),
{
    let mut salt = [0u8; 32];
    fill_random(&mut salt)?;
    Ok(salt)
}

} // verus!

verus! {

/// The vault key is Argon2id with 65536 KiB of memory, 3 passes and 4 lanes.
pub proof fn derived_key_costs(password: Seq<u8>, salt: Seq<u8>)
    ensures
        derived_key(password, salt) == argon2id_v13(65536, 3, 4, password, salt),
{
}

/// Key derivation accepts every password of at most `u32::MAX` bytes with
/// every salt of 8 to `u32::MAX` bytes, and refuses all others.
pub proof fn derive_key_accepts(password: Seq<u8>, salt: Seq<u8>)
    ensures
        derive_key_error(password, salt) is None <==> (password.len() <= 0xFFFF_FFFF && 8
            <= salt.len() <= 0xFFFF_FFFF),
{
}

} // verus!
