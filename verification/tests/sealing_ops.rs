use base64::Engine;
use passman::sealing::{seal_vault, unseal_vault};

#[test]
fn unseal_gives_back_what_seal_sealed() {
    let salt = [42u8; 32];
    let v = seal_vault(b"{\"entries\":[]}", "hunter22", &salt).unwrap();
    let (plaintext, s) = unseal_vault(&v, "hunter22").unwrap();
    assert_eq!(plaintext, b"{\"entries\":[]}".to_vec());
    assert_eq!(s, salt.to_vec());
}

#[test]
fn unseal_with_another_password_fails() {
    let v = seal_vault(b"data", "hunter22", &[1u8; 32]).unwrap();
    assert_eq!(
        unseal_vault(&v, "hunter23"),
        Err("Invalid master password".to_string())
    );
}

#[test]
fn seal_refuses_a_short_salt() {
    match seal_vault(b"data", "hunter22", &[1u8; 4]) {
        Err(e) => assert_eq!(e, "key derivation failed: salt is too short"),
        Ok(_) => panic!("a 4-byte salt must be refused"),
    }
}

#[test]
fn unseal_reports_a_short_salt() {
    let v = passman::crypto::encrypt::build_encrypted_vault(&[1u8; 4], &[0u8; 12], b"x");
    assert_eq!(
        unseal_vault(&v, "hunter22"),
        Err("key derivation failed: salt is too short".to_string())
    );
}

#[test]
fn sealed_fields_are_base64_text() {
    let salt = [7u8; 16];
    let v = seal_vault(b"abc", "hunter22", &salt).unwrap();
    let b64 = base64::engine::general_purpose::STANDARD;
    assert_eq!(v.salt, b64.encode(salt));
    assert_eq!(b64.decode(&v.nonce).unwrap().len(), 12);
    assert_eq!(b64.decode(&v.ciphertext).unwrap().len(), 3 + 16);
}
