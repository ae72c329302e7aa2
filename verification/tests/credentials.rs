use aes_gcm::aead::{Aead, KeyInit};
use aes_gcm::{Aes256Gcm, Nonce};
use base64::Engine;
use mcp_ssh::manager_db::{Account, DbError, DbLocation, ManagerDb};
use mcp_ssh::security::{MasterKey, SecurityError, SecurityManager, StoredSecret};
use std::cell::Cell;
use std::path::PathBuf;

const KEY: [u8; 32] = [7u8; 32];

fn seal(key: &[u8; 32], nonce: &[u8; 12], plain: &[u8]) -> Vec<u8> {
    let cipher = Aes256Gcm::new(key.into());
    cipher.encrypt(Nonce::from_slice(nonce), plain).unwrap()
}

fn b64(bytes: &[u8]) -> String {
    base64::engine::general_purpose::STANDARD.encode(bytes)
}

fn new_format(key: &[u8; 32], plain: &[u8]) -> String {
    let nonce = [3u8; 12];
    let mut combined = nonce.to_vec();
    combined.extend(seal(key, &nonce, plain));
    b64(&combined)
}

fn legacy_format(key: &[u8; 32], plain: &[u8]) -> String {
    b64(&seal(key, b"unique nonce", plain))
}

#[test]
fn decrypts_nonce_prefixed_credential() {
    let sm = SecurityManager::new("svc");
    let stored = new_format(&KEY, b"hunter2");
    assert_eq!(sm.decrypt(&KEY, &stored).ok(), Some("hunter2".to_string()));
}

#[test]
fn decrypts_legacy_fixed_nonce_credential() {
    let sm = SecurityManager::new("svc");
    let stored = legacy_format(&KEY, b"/home/me/.ssh/id_ed25519");
    assert_eq!(sm.decrypt(&KEY, &stored).ok(), Some("/home/me/.ssh/id_ed25519".to_string()));
}

#[test]
fn refuses_text_that_is_not_base64() {
    let sm = SecurityManager::new("svc");
    let e = sm.decrypt(&KEY, "not base64!!").err().unwrap();
    assert!(matches!(e, SecurityError::CredentialNotBase64));
    assert_eq!(e.message(), "Failed to decode credential as base64");
}

#[test]
fn short_credential_fails_in_legacy_format() {
    let sm = SecurityManager::new("svc");
    let e = sm.decrypt(&KEY, &b64(&[1, 2, 3, 4, 5])).err().unwrap();
    assert!(matches!(e, SecurityError::LegacyDecryptFailed { .. }));
    assert_eq!(e.message(), "Credential decryption failed (legacy format): aead::Error");
}

#[test]
fn credential_too_short_for_a_tag_is_refused() {
    let sm = SecurityManager::new("svc");
    for n in [0usize, 11, 12, 15] {
        assert!(sm.decrypt(&KEY, &b64(&vec![4u8; n])).is_err(), "{}", n);
    }
}

#[test]
fn wrong_key_fails_both_formats() {
    let sm = SecurityManager::new("svc");
    let stored = new_format(&KEY, b"secret");
    let e = sm.decrypt(&[9u8; 32], &stored).err().unwrap();
    assert!(matches!(e, SecurityError::DecryptFailed { .. }));
    assert_eq!(e.message(), "Credential decryption failed (new+legacy): aead::Error");
}

#[test]
fn non_utf8_plaintext_is_refused() {
    let sm = SecurityManager::new("svc");
    let stored = new_format(&KEY, &[0xff, 0xfe, 0x00]);
    let e = sm.decrypt(&KEY, &stored).err().unwrap();
    assert!(matches!(e, SecurityError::CredentialNotUtf8));
    assert_eq!(e.message(), "Credential is not valid UTF-8");
}

#[test]
fn missing_master_key_is_created_and_reads_back() {
    let sm = SecurityManager::new("mcp-ssh-manager");
    let created = sm.get_or_create_master_key(StoredSecret::Missing);
    let (key, encoded) = match created {
        Ok(MasterKey::Created { key, encoded }) => (key, encoded),
        _ => panic!("expected a created key"),
    };
    assert_eq!(encoded.len(), 64);
    assert_eq!(encoded, hex::encode(key));
    assert!(encoded.chars().all(|c| c.is_ascii_digit() || ('a'..='f').contains(&c)));
    match sm.get_or_create_master_key(StoredSecret::Found(encoded)) {
        Ok(MasterKey::Existing(read)) => assert_eq!(read, key),
        _ => panic!("expected the stored key"),
    }
}

#[test]
fn stored_master_key_is_decoded() {
    let sm = SecurityManager::new("mcp-ssh-manager");
    let text = "00ff10AB".repeat(8);
    match sm.get_or_create_master_key(StoredSecret::Found(text)) {
        Ok(MasterKey::Existing(k)) => {
            assert_eq!(&k[..4], &[0x00, 0xff, 0x10, 0xab]);
            assert_eq!(k[31], 0xab);
        }
        _ => panic!("expected a decoded key"),
    }
}

#[test]
fn bad_master_key_text_is_refused() {
    let sm = SecurityManager::new("mcp-ssh-manager");
    for bad in ["zz".repeat(32), "ab".repeat(31), "abc".to_string(), String::new()] {
        let e = sm.get_or_create_master_key(StoredSecret::Found(bad)).err().unwrap();
        assert!(matches!(e, SecurityError::MasterKeyNotHex));
        assert_eq!(e.message(), "Failed to decode master key");
    }
}

#[test]
fn unavailable_keyring_is_an_error() {
    let sm = SecurityManager::new("mcp-ssh-manager");
    let e = sm.get_or_create_master_key(StoredSecret::Unavailable).err().unwrap();
    assert!(matches!(e, SecurityError::KeyringUnavailable));
    assert_eq!(e.message(), "Failed to retrieve master key from keyring");
}

#[test]
fn security_manager_keeps_its_service() {
    assert_eq!(SecurityManager::new("mcp-ssh-manager").service_name(), "mcp-ssh-manager");
}

#[test]
fn missing_database_is_refused_before_the_keyring() {
    let e = DbLocation::check(PathBuf::from("/nowhere/manager.db"), false).err().unwrap();
    assert!(matches!(e, DbError::DatabaseNotFound { .. }));
    assert_eq!(e.message(), "mcp-ssh-manager database not found at \"/nowhere/manager.db\"");
}

fn opened(key: Result<[u8; 32], String>) -> Result<ManagerDb, DbError> {
    let location = DbLocation::check(PathBuf::from("/data/manager.db"), true).ok().unwrap();
    let asked = Cell::new(0);
    let r = ManagerDb::new(location, |_| {
        asked.set(asked.get() + 1);
        key
    });
    assert_eq!(asked.get(), 1);
    r
}

#[test]
fn database_handle_uses_manager_keyring_service() {
    let location = DbLocation::check(PathBuf::from("/data/manager.db"), true).ok().unwrap();
    let db = ManagerDb::new(location, |sm| {
        assert_eq!(sm.service_name(), "mcp-ssh-manager");
        Ok(KEY)
    })
    .ok()
    .unwrap();
    assert_eq!(db.path(), &PathBuf::from("/data/manager.db"));
}

#[test]
fn master_key_failure_stops_opening() {
    let e = opened(Err("locked".to_string())).err().unwrap();
    match &e {
        DbError::MasterKeyInit { detail } => assert_eq!(detail, "locked"),
        _ => panic!("expected a master key error"),
    }
    assert_eq!(e.message(), "Failed to initialize master key from keyring");
}

fn account(credential: String) -> Account {
    Account {
        id: Some(3),
        machine_id: 7,
        username: "deploy".to_string(),
        auth_type: "password".to_string(),
        credential,
    }
}

#[test]
fn account_credential_is_decrypted() {
    let db = opened(Ok(KEY)).ok().unwrap();
    let row = account(new_format(&KEY, b"pa55"));
    let got = db.get_account_for_machine(Some(row)).ok().unwrap().unwrap();
    assert_eq!(got.credential, "pa55");
    assert_eq!(got.username, "deploy");
    assert_eq!(got.id, Some(3));
    assert_eq!(got.machine_id, 7);
    assert_eq!(got.auth_type, "password");
    assert!(db.get_account_for_machine(None).ok().unwrap().is_none());
}

#[test]
fn undecryptable_credential_is_an_error() {
    let db = opened(Ok(KEY)).ok().unwrap();
    let e = db.get_account_for_machine(Some(account("%%%".to_string()))).err().unwrap();
    match &e {
        DbError::CredentialDecrypt { cause } => {
            assert!(matches!(cause, SecurityError::CredentialNotBase64))
        }
        _ => panic!("expected a credential error"),
    }
    assert_eq!(e.message(), "Failed to decrypt account credential");
}
