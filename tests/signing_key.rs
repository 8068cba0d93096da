use base64::prelude::BASE64_STANDARD;
use base64::Engine;
use pqcrypto::sign::sphincsshake256ssimple::keypair;
use pqcrypto::traits::sign::PublicKey;
use vault_keys::signing_key::SigningKey;

#[test]
fn signing_key_new_creates_valid_keypair() {
    let signing_key = SigningKey::new();
    assert!(signing_key.get_secret_key().is_some());
    assert!(!signing_key.get_public_key().is_empty());
}

#[test]
fn signing_key_new_from_public_key_creates_instance_with_only_public_key() {
    let (pk, _) = keypair();
    let public_key = BASE64_STANDARD.encode(pk.as_bytes());
    let signing_key = SigningKey::new_from_public_key(public_key).unwrap();
    assert!(signing_key.get_secret_key().is_none());
    assert!(!signing_key.get_public_key().is_empty());
}

#[test]
fn signing_key_new_from_public_key_returns_error_for_invalid_key() {
    let result = SigningKey::new_from_public_key("invalid_key".to_string());
    assert!(result.is_err());
}

#[test]
fn signing_key_create_signature_returns_signature_when_secret_key_is_present() {
    let signing_key = SigningKey::new();
    let message = b"test message";
    let signature = signing_key.create_signature(message).unwrap();
    assert!(!signature.is_empty());
}

#[test]
fn signing_key_create_signature_returns_error_when_secret_key_is_absent() {
    let (pk, _) = keypair();
    let public_key = BASE64_STANDARD.encode(pk.as_bytes());
    let signing_key = SigningKey::new_from_public_key(public_key).unwrap();
    let message = b"test message";
    let result = signing_key.create_signature(message);
    assert!(result.is_err());
}

#[test]
fn signing_key_verify_signature_returns_true_for_valid_signature() {
    let signing_key = SigningKey::new();
    let message = b"test message";
    let signature = signing_key.create_signature(message).unwrap();
    assert!(signing_key.verify_signature(message, signature));
}

#[test]
fn signing_key_verify_signature_returns_false_for_invalid_signature() {
    let signing_key = SigningKey::new();
    let message = b"test message";
    let invalid_signature = "invalid_signature".to_string();
    assert!(!signing_key.verify_signature(message, invalid_signature));
}

#[test]
fn signing_key_get_public_key_returns_non_empty_string() {
    let signing_key = SigningKey::new();
    assert!(!signing_key.get_public_key().is_empty());
}

#[test]
fn signing_key_get_secret_key_returns_some_when_secret_key_is_present() {
    let signing_key = SigningKey::new();
    assert!(signing_key.get_secret_key().is_some());
}

#[test]
fn signing_key_get_secret_key_returns_none_when_secret_key_is_absent() {
    let (pk, _) = keypair();
    let public_key = BASE64_STANDARD.encode(pk.as_bytes());
    let signing_key = SigningKey::new_from_public_key(public_key).unwrap();
    assert!(signing_key.get_secret_key().is_none());
}
