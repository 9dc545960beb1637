use milk_lib::crypto::{decrypt_value, encrypt_decrypt_round_trip, encrypt_value, StorageError};
use milk_lib::vault::{decide_master_key, generate_master_key, CredentialStore, KeyDecision};

fn test_key() -> Vec<u8> {
    (0u8..32).collect()
}

#[test]
fn test_store_and_retrieve() {
    let mut storage = CredentialStore::new(test_key());
    let test_key_name = "test_credential";
    let test_value = "secret_token_12345";

    storage.store(test_key_name, test_value).unwrap();

    let retrieved = storage.retrieve(test_key_name).unwrap();
    assert_eq!(retrieved, Some(test_value.to_string()));

    storage.delete(test_key_name).unwrap();
}

#[test]
fn test_retrieve_nonexistent() {
    let storage = CredentialStore::new(test_key());
    let result = storage.retrieve("nonexistent_key").unwrap();
    assert_eq!(result, None);
}

#[test]
fn test_delete() {
    let mut storage = CredentialStore::new(test_key());
    let test_key_name = "test_delete";
    let test_value = "delete_me";

    storage.store(test_key_name, test_value).unwrap();

    storage.delete(test_key_name).unwrap();

    let result = storage.retrieve(test_key_name).unwrap();
    assert_eq!(result, None);
}

#[test]
fn test_delete_never_stored_succeeds() {
    let mut storage = CredentialStore::new(test_key());
    assert!(storage.delete("never_stored").is_ok());
    assert_eq!(storage.retrieve("never_stored").unwrap(), None);
}

#[test]
fn test_encryption_decryption() {
    let key = test_key();
    let plaintext = "sensitive_data_123";

    let encrypted = encrypt_value(&key, plaintext).unwrap();
    assert_ne!(encrypted, plaintext);

    let decrypted = decrypt_value(&key, &encrypted).unwrap();
    assert_eq!(decrypted, plaintext);
}

#[test]
fn test_overwrite_credential() {
    let mut storage = CredentialStore::new(test_key());
    let test_key_name = "test_overwrite";

    storage.store(test_key_name, "value1").unwrap();
    let retrieved1 = storage.retrieve(test_key_name).unwrap();
    assert_eq!(retrieved1, Some("value1".to_string()));

    storage.store(test_key_name, "value2").unwrap();
    let retrieved2 = storage.retrieve(test_key_name).unwrap();
    assert_eq!(retrieved2, Some("value2".to_string()));

    storage.delete(test_key_name).unwrap();
}

#[test]
fn test_round_trip_all_plaintexts() {
    // Round trip through the full pipeline, empty string included.
    let key = test_key();
    for plaintext in ["", "a", "hello world", "unicode: \u{00e9}\u{1f3b5}", "line\nbreaks\t"] {
        let back = encrypt_decrypt_round_trip(&key, plaintext).unwrap();
        assert_eq!(back, plaintext);
    }
}

#[test]
fn test_nonce_uniqueness() {
    // Encrypting the same plaintext repeatedly must give fresh nonces and
    // fresh ciphertexts: the whole envelopes differ pairwise.
    let key = test_key();
    let mut seen: Vec<String> = Vec::new();
    for _ in 0..10 {
        let env = encrypt_value(&key, "same plaintext").unwrap();
        assert!(!seen.contains(&env), "an envelope repeated: nonce reuse");
        seen.push(env);
    }
}

#[test]
fn test_tamper_detection() {
    // Flipping any single byte of the stored envelope text (which holds the
    // base64 nonce and ciphertext) must make decryption fail, never return
    // a wrong plaintext.
    let key = test_key();
    let envelope = encrypt_value(&key, "tamper target").unwrap();
    let bytes = envelope.as_bytes();
    for i in 0..bytes.len() {
        let mut corrupted = bytes.to_vec();
        corrupted[i] ^= 0x01;
        let Ok(text) = String::from_utf8(corrupted) else {
            continue;
        };
        if text == envelope {
            continue;
        }
        match decrypt_value(&key, &text) {
            Ok(p) => assert_eq!(p, "tamper target", "a wrong plaintext came back silently"),
            Err(e) => assert!(matches!(
                e,
                StorageError::DecryptionError(_) | StorageError::Base64Error(_)
            )),
        }
        // Flipping a bit of either base64 field must never succeed; only
        // the structural punctuation could in principle survive, and the
        // strict envelope parser rejects that too.
        assert!(decrypt_value(&key, &text).is_err());
    }
}

#[test]
fn test_wrong_key_fails() {
    let key = test_key();
    let envelope = encrypt_value(&key, "locked away").unwrap();
    let other_key: Vec<u8> = (100u8..132).collect();
    assert!(decrypt_value(&other_key, &envelope).is_err());
}

#[test]
fn test_encrypt_rejects_bad_key_length() {
    let short_key = vec![0u8; 16];
    match encrypt_value(&short_key, "plaintext") {
        Err(StorageError::EncryptionError(_)) => {}
        other => panic!("expected an encryption failure, got {:?}", other),
    }
}

#[test]
fn test_master_key_text_is_base64() {
    // A fresh master key is stored as standard base64: 44 characters of
    // the alphabet for 32 bytes, padding included.
    let (_, text) = generate_master_key().unwrap();
    assert_eq!(text.len(), 44);
    assert!(text
        .chars()
        .all(|c| c.is_ascii_alphanumeric() || c == '+' || c == '/' || c == '='));
}

#[test]
fn test_master_key_known_vector() {
    // The canonical encoding of thirty-two zero bytes decodes back to them.
    let text = "AAAAAAAAAAAAAAAAAAAAAAAAAAAAAAAAAAAAAAAAAAA=";
    match decide_master_key(Some(text)) {
        KeyDecision::UseStored(k) => assert_eq!(k, vec![0u8; 32]),
        KeyDecision::Regenerate => panic!("a canonical 32-byte key was not accepted"),
    }
}

#[test]
fn test_master_key_decision() {
    // No stored entry: regenerate.
    assert!(matches!(decide_master_key(None), KeyDecision::Regenerate));

    // A stored 32-byte key is kept.
    let (key, text) = generate_master_key().unwrap();
    match decide_master_key(Some(&text)) {
        KeyDecision::UseStored(k) => assert_eq!(k, key),
        KeyDecision::Regenerate => panic!("a valid stored key was dropped"),
    }

    // Undecodable text or a wrong length is treated as corrupt.
    assert!(matches!(decide_master_key(Some("not base64!!")), KeyDecision::Regenerate));
    assert!(matches!(decide_master_key(Some("c2hvcnQ=")), KeyDecision::Regenerate));
}
