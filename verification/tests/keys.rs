//! Stored key text, key sources and key resolution.

use eck::errors::EnkryptitError;
use eck::key::derivation::generate_key;
use eck::key::resolve::{
    key_source, resolve_key_from_file, resolve_key_from_os, with_master_key, EnkryptitKey, KeyMaterial,
    KeySource, StoredKey,
};
use eck::key::storage::{key_file_name, key_from_hex, key_to_hex, keyring_user, service};
use eck::types::{KeyParams, KeyType, Mode};

#[test]
fn key_text_is_lowercase_hex() {
    let mut key = [0u8; 32];
    key[0] = 0xAB;
    key[31] = 0x0F;
    let text = key_to_hex(&key);
    assert_eq!(text.len(), 64);
    assert!(text.starts_with("ab00"));
    assert!(text.ends_with("000f"));
}

#[test]
fn stored_key_roundtrip() {
    let key: [u8; 32] = core::array::from_fn(|i| (i * 37) as u8);
    assert_eq!(key_from_hex(key_to_hex(&key).as_bytes()), Ok(key));
}

#[test]
fn stored_key_accepts_uppercase() {
    let text = "AB".repeat(32);
    assert_eq!(key_from_hex(text.as_bytes()), Ok([0xAB; 32]));
}

#[test]
fn stored_key_wrong_length() {
    assert_eq!(key_from_hex("abcd".as_bytes()), Err(EnkryptitError::InvalidKeyLength));
    assert_eq!(key_from_hex(b""), Err(EnkryptitError::InvalidKeyLength));
}

#[test]
fn stored_key_not_hex() {
    assert_eq!(key_from_hex(b"abc"), Err(EnkryptitError::HexError));
    assert_eq!(key_from_hex("zz".repeat(32).as_bytes()), Err(EnkryptitError::HexError));
}

#[test]
fn keyring_names() {
    assert_eq!(service(), "ENKRYPTIT");
    assert_eq!(keyring_user("/tmp/a.txt"), "enkryptit/tmp/a.txt");
}

#[test]
fn key_file_names() {
    assert_eq!(key_file_name(Some("encky"), Some("secret.txt"), Some("secret.txt.encky")), Ok("enkryptit_secret.txt".to_string()));
    assert_eq!(key_file_name(Some("txt"), Some("secret"), Some("secret.txt")), Ok("enkryptit_secret.txt".to_string()));
    assert_eq!(key_file_name(None, Some("folder"), Some("folder")), Ok("enkryptit_folder".to_string()));
    assert_eq!(key_file_name(None, None, None), Err(EnkryptitError::FileError));
}

#[test]
fn key_sources() {
    assert_eq!(key_source(Mode::Encrypting, &KeyType::Password), Ok(KeySource::NewPassword));
    assert_eq!(key_source(Mode::Decrypting, &KeyType::Pwd256([3; 16])), Ok(KeySource::SaltedPassword([3; 16])));
    assert_eq!(key_source(Mode::Decrypting, &KeyType::FromFile), Ok(KeySource::File));
    assert_eq!(key_source(Mode::Encrypting, &KeyType::FromOS), Ok(KeySource::Os));
    assert_eq!(
        key_source(Mode::Decrypting, &KeyType::Password),
        Err(EnkryptitError::InvalidKeyType("Password".to_string(), "Pwd256".to_string()))
    );
    assert_eq!(
        key_source(Mode::Encrypting, &KeyType::Pwd256([0; 16])),
        Err(EnkryptitError::InvalidKeyType("Pwd256".to_string(), "Password".to_string()))
    );
    assert_eq!(
        key_source(Mode::Encrypting, &KeyType::NoKey),
        Err(EnkryptitError::InvalidKeyType("None".to_string(), "Password, FromFile or FromOS".to_string()))
    );
}

#[test]
fn key_file_resolution() {
    let text = "01".repeat(32).into_bytes();
    assert_eq!(resolve_key_from_file(Mode::Decrypting, Some(text)), Ok(StoredKey::Loaded([1; 32])));
    assert_eq!(resolve_key_from_file(Mode::Decrypting, None), Err(EnkryptitError::KeyNotFound));
    assert_eq!(resolve_key_from_file(Mode::Decrypting, Some(b"abcd".to_vec())), Err(EnkryptitError::KeyNotFound));
    assert!(matches!(resolve_key_from_file(Mode::Encrypting, None), Ok(StoredKey::Generated(_))));
    assert!(matches!(resolve_key_from_file(Mode::Encrypting, Some(b"zz".to_vec())), Ok(StoredKey::Generated(_))));
}

#[test]
fn keyring_resolution() {
    assert_eq!(resolve_key_from_os(Mode::Encrypting, Some("ff".repeat(32))), Ok(StoredKey::Loaded([0xFF; 32])));
    assert_eq!(resolve_key_from_os(Mode::Decrypting, None), Err(EnkryptitError::KeyNotFound));
    assert_eq!(resolve_key_from_os(Mode::Decrypting, Some("ff".to_string())), Err(EnkryptitError::KeyNotFound));
    assert!(matches!(resolve_key_from_os(Mode::Encrypting, None), Ok(StoredKey::Generated(_))));
}

#[test]
fn master_key_use() {
    let first = with_master_key(|k: &[u8; 32]| k[0], Ok("07".repeat(32)));
    assert_eq!(first, Ok(7));
    assert_eq!(with_master_key(|k: &[u8; 32]| k[0], Ok("07".to_string())), Err(EnkryptitError::InvalidKeyLength));
    assert_eq!(with_master_key(|k: &[u8; 32]| k[0], Ok("xy".repeat(32))), Err(EnkryptitError::HexError));
    assert_eq!(
        with_master_key(|k: &[u8; 32]| k[0], Err(EnkryptitError::Keyring("no entry".to_string()))),
        Err(EnkryptitError::Keyring("no entry".to_string()))
    );
}

#[test]
fn resolve_stored_keys() {
    let text = "05".repeat(32).into_bytes();
    let r = EnkryptitKey::resolve(Mode::Decrypting, &KeyType::FromFile, KeyMaterial::KeyFile(Some(text))).unwrap();
    assert!(!r.to_store);
    assert_eq!(r.key.key_as_ref(), &[5; 32]);
    assert_eq!(r.key.key_type_as_ref(), &KeyType::FromFile);

    let r = EnkryptitKey::resolve(Mode::Encrypting, &KeyType::FromOS, KeyMaterial::Keyring(None)).unwrap();
    assert!(r.to_store);
    assert_eq!(r.key.key_type(), KeyType::FromOS);

    assert!(matches!(
        EnkryptitKey::resolve(Mode::Decrypting, &KeyType::FromOS, KeyMaterial::Keyring(None)),
        Err(EnkryptitError::KeyNotFound)
    ));
}

#[test]
fn generated_keys_differ() {
    assert_ne!(generate_key().unwrap(), generate_key().unwrap());
}

#[test]
fn password_key_reproducible_at_decryption() {
    let enc = EnkryptitKey::resolve(Mode::Encrypting, &KeyType::Password, KeyMaterial::Password("pw".to_string())).unwrap();
    assert!(!enc.to_store);
    let salt = match enc.key.key_type_as_ref() {
        KeyType::Pwd256(salt) => *salt,
        other => panic!("unexpected key type {other:?}"),
    };
    let enc_key = *enc.key.key_as_ref();
    let dec = EnkryptitKey::resolve(Mode::Decrypting, &KeyType::Pwd256(salt), KeyMaterial::Password("pw".to_string())).unwrap();
    assert_eq!(dec.key.key_as_ref(), &enc_key);
    assert_eq!(dec.key.key_type(), KeyType::NoKey);
}

#[test]
fn stored_key_is_found_again() {
    let key: [u8; 32] = core::array::from_fn(|i| (255 - i) as u8);
    let text = key_to_hex(&key);
    assert_eq!(resolve_key_from_file(Mode::Decrypting, Some(text.clone().into_bytes())), Ok(StoredKey::Loaded(key)));
    assert_eq!(resolve_key_from_os(Mode::Decrypting, Some(text)), Ok(StoredKey::Loaded(key)));
}

#[test]
fn parameter_key_types_can_encrypt() {
    for p in [KeyParams::PassWord, KeyParams::File, KeyParams::Os] {
        assert!(key_source(Mode::Encrypting, &p.to_type()).is_ok());
    }
}

#[test]
fn material_of_the_wrong_kind_is_refused() {
    assert!(matches!(
        EnkryptitKey::resolve(Mode::Decrypting, &KeyType::FromFile, KeyMaterial::Password("pw".to_string())),
        Err(EnkryptitError::KeyNotFound)
    ));
    assert!(matches!(
        EnkryptitKey::resolve(Mode::Encrypting, &KeyType::FromOS, KeyMaterial::KeyFile(None)),
        Err(EnkryptitError::KeyNotFound)
    ));
}

#[test]
fn archive_and_plain_object_share_key_file() {
    assert_eq!(
        key_file_name(Some("encky"), Some("notes.txt"), Some("notes.txt.encky")),
        key_file_name(Some("txt"), Some("notes"), Some("notes.txt"))
    );
    assert_eq!(
        key_file_name(Some("encky"), Some("folder"), Some("folder.encky")),
        key_file_name(None, Some("folder"), Some("folder"))
    );
}
