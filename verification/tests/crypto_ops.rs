use passman::crypto::decrypt::{decrypt, parse_encrypted_vault};
use passman::crypto::encrypt::{build_encrypted_vault, encrypt, encrypt_with_nonce, EncryptedVault};
use passman::crypto::key_derivation::{derive_key, generate_salt};

fn hex(bytes: &[u8]) -> String {
    bytes.iter().map(|b| format!("{b:02x}")).collect()
}

#[test]
fn aes_gcm_matches_the_published_vector_for_empty_input() {
    let c = encrypt_with_nonce(&[], &[0u8; 32], &[0u8; 12]).unwrap();
    assert_eq!(hex(&c), "530f8afbc74536b9a963b4f1c4cb738b");
}

#[test]
fn aes_gcm_matches_the_published_vector_for_one_block() {
    let c = encrypt_with_nonce(&[0u8; 16], &[0u8; 32], &[0u8; 12]).unwrap();
    assert_eq!(
        hex(&c),
        "cea7403d4d606b6e074ec5d3baf39d18d0d1c8a799996bf0265b98b5d48ab919"
    );
}

#[test]
fn decrypt_reverses_encrypt() {
    let key = [7u8; 32];
    let (c, nonce) = encrypt(b"secret notes", &key).unwrap();
    assert_eq!(c.len(), b"secret notes".len() + 16);
    assert_ne!(&c[..12], b"secret notes");
    assert_eq!(decrypt(&c, &key, &nonce).unwrap(), b"secret notes".to_vec());
}

#[test]
fn decrypt_with_another_key_fails() {
    let (c, nonce) = encrypt(b"secret", &[1u8; 32]).unwrap();
    assert_eq!(
        decrypt(&c, &[2u8; 32], &nonce),
        Err("Invalid master password".to_string())
    );
}

#[test]
fn decrypt_of_tampered_ciphertext_fails() {
    let (mut c, nonce) = encrypt(b"secret", &[1u8; 32]).unwrap();
    c[0] ^= 1;
    assert_eq!(
        decrypt(&c, &[1u8; 32], &nonce),
        Err("Invalid master password".to_string())
    );
}

#[test]
fn encrypt_draws_a_new_nonce_each_time() {
    let key = [3u8; 32];
    let (c1, n1) = encrypt(b"same", &key).unwrap();
    let (c2, n2) = encrypt(b"same", &key).unwrap();
    assert_ne!(n1, n2);
    assert_ne!(c1, c2);
}

#[test]
fn build_encodes_each_field_in_base64() {
    let v = build_encrypted_vault(b"hello", &[0u8; 12], b"abc");
    assert_eq!(v.salt, "aGVsbG8=");
    assert_eq!(v.nonce, "AAAAAAAAAAAAAAAA");
    assert_eq!(v.ciphertext, "YWJj");
}

#[test]
fn parse_reverses_build() {
    let nonce = [9u8, 8, 7, 6, 5, 4, 3, 2, 1, 0, 255, 128];
    let v = build_encrypted_vault(b"salt-bytes", &nonce, b"cipher");
    let (s, n, c) = parse_encrypted_vault(&v).unwrap();
    assert_eq!(s, b"salt-bytes".to_vec());
    assert_eq!(n, nonce);
    assert_eq!(c, b"cipher".to_vec());
}

fn sealed(salt: &str, nonce: &str, ciphertext: &str) -> EncryptedVault {
    EncryptedVault {
        salt: salt.to_string(),
        nonce: nonce.to_string(),
        ciphertext: ciphertext.to_string(),
    }
}

#[test]
fn parse_reports_a_bad_salt() {
    assert_eq!(
        parse_encrypted_vault(&sealed("!!!!", "AAAAAAAAAAAAAAAA", "")),
        Err("invalid salt: Invalid symbol 33, offset 0.".to_string())
    );
}

#[test]
fn parse_reports_a_bad_nonce() {
    assert_eq!(
        parse_encrypted_vault(&sealed("", "AAA", "")),
        Err("invalid nonce: Invalid padding".to_string())
    );
}

#[test]
fn parse_reports_a_nonce_of_the_wrong_length() {
    assert_eq!(
        parse_encrypted_vault(&sealed("", "AAAA", "")),
        Err("invalid nonce length".to_string())
    );
}

#[test]
fn parse_reports_a_bad_ciphertext() {
    assert_eq!(
        parse_encrypted_vault(&sealed("", "AAAAAAAAAAAAAAAA", "a")),
        Err("invalid ciphertext: Invalid input length: 1".to_string())
    );
}

#[test]
fn derive_key_is_a_function_of_password_and_salt() {
    let salt = [5u8; 16];
    let k1 = derive_key(b"correct horse", &salt).unwrap();
    let k2 = derive_key(b"correct horse", &salt).unwrap();
    assert_eq!(k1, k2);
    assert_ne!(k1, [0u8; 32]);
    let k3 = derive_key(b"correct horse", &[6u8; 16]).unwrap();
    assert_ne!(k1, k3);
}

#[test]
fn derive_key_refuses_a_short_salt() {
    assert_eq!(
        derive_key(b"password", b"short"),
        Err("key derivation failed: salt is too short".to_string())
    );
}

#[test]
fn generated_salts_differ() {
    assert_ne!(generate_salt().unwrap(), generate_salt().unwrap());
}

#[test]
fn decoded_fields_are_checked_in_order() {
    let ok = |v: &[u8]| Ok::<Vec<u8>, String>(v.to_vec());
    let bad = |m: &str| Err::<Vec<u8>, String>(m.to_string());
    assert_eq!(
        passman::crypto::decrypt::from_decoded_fields(ok(b"s"), ok(&[1u8; 12]), ok(b"c")),
        Ok((b"s".to_vec(), [1u8; 12], b"c".to_vec()))
    );
    assert_eq!(
        passman::crypto::decrypt::from_decoded_fields(bad("x"), bad("y"), bad("z")),
        Err("invalid salt: x".to_string())
    );
    assert_eq!(
        passman::crypto::decrypt::from_decoded_fields(ok(b"s"), bad("y"), bad("z")),
        Err("invalid nonce: y".to_string())
    );
    assert_eq!(
        passman::crypto::decrypt::from_decoded_fields(ok(b"s"), ok(&[1u8; 13]), bad("z")),
        Err("invalid nonce length".to_string())
    );
    assert_eq!(
        passman::crypto::decrypt::from_decoded_fields(ok(b"s"), ok(&[1u8; 12]), bad("z")),
        Err("invalid ciphertext: z".to_string())
    );
}

#[test]
fn encrypt_with_nonce_appends_a_sixteen_byte_tag() {
    let c = encrypt_with_nonce(b"twenty-one bytes long", &[4u8; 32], &[5u8; 12]).unwrap();
    assert_eq!(c.len(), 21 + 16);
}

#[test]
fn decrypt_of_a_ciphertext_shorter_than_the_tag_fails() {
    assert_eq!(
        decrypt(&[0u8; 15], &[0u8; 32], &[0u8; 12]),
        Err("Invalid master password".to_string())
    );
}

#[test]
fn base64_text_uses_the_standard_alphabet_and_padding() {
    let v = build_encrypted_vault(&[0, 0, 0, 255, 255, 255], &[251u8; 12], &[251, 255]);
    assert_eq!(v.salt, "AAAA////");
    assert_eq!(v.nonce, "+/v7+/v7+/v7+/v7");
    assert_eq!(v.ciphertext, "+/8=");
}

#[test]
fn entries_can_be_cloned() {
    let e = passman::entry::Entry {
        name: "mail".to_string(),
        username: "a".to_string(),
        password: "p".to_string(),
        url: "u".to_string(),
        notes: "n".to_string(),
    };
    let c = e.clone();
    assert_eq!(c.name, e.name);
    assert_eq!(c.password, e.password);
}
