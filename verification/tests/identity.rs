use base64::Engine;
use p256::ecdsa::{signature::Verifier, Signature, VerifyingKey};
use p256::pkcs8::DecodePublicKey;
use remvora_agent::identity::{Identity, IdentityError};

fn decode(s: &str) -> Vec<u8> {
    base64::engine::general_purpose::STANDARD.decode(s).unwrap()
}

#[test]
fn proof_round_trip_and_tamper_rejection() {
    let (identity, fresh) = Identity::load_or_create(None).unwrap();
    assert!(fresh.is_some());
    let key = VerifyingKey::from_public_key_der(&decode(&identity.public_key().unwrap())).unwrap();
    let signature = Signature::from_slice(&decode(&identity.sign("bound-challenge").unwrap())).unwrap();
    assert!(key.verify(b"bound-challenge", &signature).is_ok());
    assert!(key.verify(b"other-challenge", &signature).is_err());
}

#[test]
fn stored_identity_is_reused_and_invalid_identity_refused() {
    let (identity, fresh) = Identity::load_or_create(None).unwrap();
    let stored = fresh.unwrap();
    assert_eq!(stored, identity.secret_der());
    let (again, none) = Identity::load_or_create(Some(stored)).unwrap();
    assert!(none.is_none());
    assert_eq!(again.public_key().unwrap(), identity.public_key().unwrap());
    assert_eq!(again.sign("x").unwrap(), identity.sign("x").unwrap());
    assert_eq!(decode(&again.sign("x").unwrap()).len(), 64);
    assert!(matches!(Identity::load_or_create(Some(vec![1, 2, 3])), Err(IdentityError::InvalidIdentity)));
}
