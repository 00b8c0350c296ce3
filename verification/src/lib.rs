//! A password vault: entries looked up by name without regard to case,
//! sealed with a key derived from a master password.

pub mod cli;
pub mod crypto;
pub mod entry;
pub mod gui;
pub mod properties;
pub mod sealing;
pub mod storage;
pub mod text;
pub mod vault;
