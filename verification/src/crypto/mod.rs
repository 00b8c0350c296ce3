//! Key derivation, authenticated encryption and the text encoding of a
//! sealed vault.

pub mod cipher;
pub mod decrypt;
pub mod encoding;
pub mod encrypt;
pub mod key_derivation;
pub mod random;
