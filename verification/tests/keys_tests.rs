//! Tests of the hybrid key pair store: persistence round trips and
//! signatures of both halves.

use keysas::keys::{KeysasClassicKey, KeysasPQKey, KeyStoreError, DILITHIUM5_OID, ED25519_OID};
use pkcs8::pkcs5::pbes2;
use pkcs8::{AlgorithmIdentifierRef, PrivateKeyInfo};

#[test]
fn classic_store_round_trip() {
    let key = KeysasClassicKey::generate().expect("key generation");
    let der = key.save_keys_with_cost("test password", 10).expect("save");
    let loaded = KeysasClassicKey::load_keys(&der, "test password").expect("load");
    assert_eq!(loaded.secret, key.secret);
    assert_eq!(loaded.public, key.public);
}

#[test]
fn classic_load_with_wrong_password_fails() {
    let key = KeysasClassicKey::generate().expect("key generation");
    let der = key.save_keys_with_cost("right password", 10).expect("save");
    assert!(KeysasClassicKey::load_keys(&der, "wrong password").is_err());
}

#[test]
fn classic_load_of_garbage_fails() {
    assert!(KeysasClassicKey::load_keys(&[1, 2, 3, 4], "pwd").is_err());
}

#[test]
fn pq_store_round_trip() {
    let key = KeysasPQKey::generate();
    let der = key.save_keys_with_cost("test password", 10).expect("save");
    let loaded = KeysasPQKey::load_keys(&der, "test password").expect("load");
    assert_eq!(loaded.private_key, key.private_key);
    assert_eq!(loaded.public_key, key.public_key);
}

#[test]
fn pq_document_is_rejected_by_classic_load() {
    let key = KeysasPQKey::generate();
    let der = key.save_keys_with_cost("pwd", 10).expect("save");
    match KeysasClassicKey::load_keys(&der, "pwd") {
        Err(KeyStoreError::WrongAlgorithm) => (),
        other => panic!("expected a wrong-algorithm error, got {:?}", other.map(|_| ())),
    }
}

#[test]
fn classic_document_is_rejected_by_pq_load() {
    let key = KeysasClassicKey::generate().expect("key generation");
    let der = key.save_keys_with_cost("pwd", 10).expect("save");
    match KeysasPQKey::load_keys(&der, "pwd") {
        Err(KeyStoreError::WrongAlgorithm) => (),
        other => panic!("expected a wrong-algorithm error, got {:?}", other.map(|_| ())),
    }
}

#[test]
fn classic_sign_verify_round_trip() {
    let key = KeysasClassicKey::generate().expect("key generation");
    let msg = b"abcd/1234/0100/S01/out";
    let sig = key.message_sign(msg).expect("sign");
    assert_eq!(sig.len(), 64);
    assert!(key.message_verify(msg, &sig));
}

#[test]
fn classic_verify_rejects_wrong_message() {
    let key = KeysasClassicKey::generate().expect("key generation");
    let sig = key.message_sign(b"message one").expect("sign");
    assert!(!key.message_verify(b"message two", &sig));
}

#[test]
fn classic_verify_rejects_tampered_signature() {
    let key = KeysasClassicKey::generate().expect("key generation");
    let mut sig = key.message_sign(b"a message").expect("sign");
    sig[0] ^= 0x01;
    assert!(!key.message_verify(b"a message", &sig));
}

#[test]
fn pq_sign_verify_round_trip() {
    let key = KeysasPQKey::generate();
    let msg = b"abcd/1234/0100/S01/out";
    let sig = key.message_sign(msg).expect("sign");
    assert!(key.message_verify(msg, &sig));
}

#[test]
fn pq_verify_rejects_wrong_message() {
    let key = KeysasPQKey::generate();
    let sig = key.message_sign(b"message one").expect("sign");
    assert!(!key.message_verify(b"message two", &sig));
}

#[test]
fn pq_verify_rejects_tampered_signature() {
    let key = KeysasPQKey::generate();
    let mut sig = key.message_sign(b"a message").expect("sign");
    sig[100] ^= 0x80;
    assert!(!key.message_verify(b"a message", &sig));
}

#[test]
fn verify_under_foreign_key_fails() {
    let alice = KeysasClassicKey::generate().expect("key generation");
    let eve = KeysasClassicKey::generate().expect("key generation");
    let sig = eve.message_sign(b"a message").expect("sign");
    assert!(!alice.message_verify(b"a message", &sig));
}

/// Build a password-encrypted PKCS#8 document with chosen contents, to
/// exercise the load checks.
fn craft_document(oid: &str, private: &[u8], public: Option<&[u8]>, pwd: &str) -> Vec<u8> {
    let salt = [1u8; 16];
    let iv = [2u8; 16];
    let sp = pkcs8::pkcs5::scrypt::Params::new(10, 8, 1, 32).expect("params");
    let params = pbes2::Parameters::scrypt_aes256cbc(sp, &salt, &iv).expect("pbes2");
    let info = PrivateKeyInfo {
        algorithm: AlgorithmIdentifierRef { oid: oid.parse().expect("oid"), parameters: None },
        private_key: private,
        public_key: public,
    };
    info.encrypt_with_params(params, pwd).expect("encrypt").as_bytes().to_vec()
}

#[test]
fn classic_load_rejects_short_private_key() {
    let der = craft_document(ED25519_OID, &[7u8; 31], Some(&[0u8; 32]), "pwd");
    match KeysasClassicKey::load_keys(&der, "pwd") {
        Err(KeyStoreError::BadPrivateKeyLength) => (),
        other => panic!("expected a length error, got {:?}", other.map(|_| ())),
    }
}

#[test]
fn pq_load_rejects_short_private_key() {
    let der = craft_document(DILITHIUM5_OID, &[7u8; 100], Some(&[0u8; 2592]), "pwd");
    match KeysasPQKey::load_keys(&der, "pwd") {
        Err(KeyStoreError::BadPrivateKeyLength) => (),
        other => panic!("expected a length error, got {:?}", other.map(|_| ())),
    }
}

#[test]
fn pq_load_requires_an_embedded_public_key() {
    let der = craft_document(DILITHIUM5_OID, &[7u8; 4896], None, "pwd");
    match KeysasPQKey::load_keys(&der, "pwd") {
        Err(KeyStoreError::MissingPublicKey) => (),
        other => panic!("expected a missing-public error, got {:?}", other.map(|_| ())),
    }
}

#[test]
fn pq_load_rejects_a_short_public_key() {
    let der = craft_document(DILITHIUM5_OID, &[7u8; 4896], Some(&[0u8; 100]), "pwd");
    match KeysasPQKey::load_keys(&der, "pwd") {
        Err(KeyStoreError::BadPublicKeyLength) => (),
        other => panic!("expected a public-length error, got {:?}", other.map(|_| ())),
    }
}

#[test]
fn wrong_password_is_a_decrypt_failure() {
    let der = craft_document(ED25519_OID, &[7u8; 32], Some(&[0u8; 32]), "right");
    match KeysasClassicKey::load_keys(&der, "wrong") {
        Err(KeyStoreError::DecryptFailure) => (),
        other => panic!("expected a decrypt failure, got {:?}", other.map(|_| ())),
    }
}
