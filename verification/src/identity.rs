//! The device identity: a locally generated P-256 key whose private half never leaves
//! the device; it proves the device to the server by signing purpose-bound challenges.
use crate::codec::{base64_encode, base64_encoding};
use p256::ecdsa::signature::Signer;
use p256::pkcs8::{DecodePrivateKey, EncodePrivateKey, EncodePublicKey};
use vstd::prelude::*;

verus! {

/// Whether `der` is a PKCS#8 P-256 private key that `p256` accepts.
pub uninterp spec fn secret_valid(der: Seq<u8>) -> bool;

/// The DER SubjectPublicKeyInfo of the public key of a PKCS#8 P-256 private key, as `p256`
/// encodes it; `None` where the key does not parse or the encoding fails.
pub uninterp spec fn public_spki(der: Seq<u8>) -> Option<Seq<u8>>;

/// The 64-byte ECDSA-SHA256 signature (RFC 6979 nonce, P1363 form) of `message` under a
/// PKCS#8 P-256 private key, as `p256` computes it; `None` where signing fails.
pub uninterp spec fn signature_of(der: Seq<u8>, message: Seq<u8>) -> Option<Seq<u8>>;

/// Calls `SecretKey::from_pkcs8_der`; true when it succeeds.
#[verifier::external_body]
fn parse_secret(der: &[u8]) -> (r: bool)
    ensures
        r == secret_valid(der@),
{
    p256::SecretKey::from_pkcs8_der(der).is_ok()
}

/// Calls `SecretKey::random` with the operating system's random source and encodes the
/// key with `to_pkcs8_der`; an encoding that succeeded parses back as a key.
#[verifier::external_body]
fn random_secret() -> (r: Option<Vec<u8>>)
    ensures
        r matches Some(der) ==> secret_valid(der@),
{
    let key = p256::SecretKey::random(&mut rand_core::OsRng);
    key.to_pkcs8_der().ok().map(|der| der.as_bytes().to_vec())
}

/// Parses the key and calls `to_public_key_der` on its verifying key; the contract names
/// the result.
#[verifier::external_body]
fn public_key_der(der: &[u8]) -> (r: Option<Vec<u8>>)
    ensures
        r matches Some(v) ==> public_spki(der@) == Some(v@),
        r is None ==> public_spki(der@) is None,
{
    let key = p256::SecretKey::from_pkcs8_der(der).ok()?;
    let spki = key.public_key().to_public_key_der().ok()?;
    Some(spki.as_bytes().to_vec())
}

/// Parses the key and calls `Signer::try_sign` of `p256::ecdsa::SigningKey`, keeping the
/// signature's `to_bytes`; the contract names the result.
#[verifier::external_body]
fn sign_message(der: &[u8], message: &[u8]) -> (r: Option<Vec<u8>>)
    ensures
        r matches Some(v) ==> signature_of(der@, message@) == Some(v@),
        r is None ==> signature_of(der@, message@) is None,
{
    let key = p256::SecretKey::from_pkcs8_der(der).ok()?;
    let signing = p256::ecdsa::SigningKey::from(key);
    let signature: p256::ecdsa::Signature = signing.try_sign(message).ok()?;
    Some(signature.to_bytes().to_vec())
}

/// Why an identity cannot be used.
#[derive(Clone, Copy, PartialEq, Eq, Structural, Debug)]
pub enum IdentityError {
    InvalidIdentity,
    KeyGeneration,
    Encoding,
    Signing,
}

/// The device's private key, PKCS#8 DER.
pub struct Identity {
    secret: Vec<u8>,
}

impl View for Identity {
    type V = Seq<u8>;

    closed spec fn view(&self) -> Seq<u8> {
        self.secret@
    }
}

impl Identity {
    /// The key is a valid P-256 private key.
    pub open spec fn wf(&self) -> bool {
        secret_valid(self@)
    }

    /// Uses the stored key, or creates a new one when none is stored. A stored key that
    /// does not parse is refused, never replaced. Returns the identity and, for a new key,
    /// the bytes to store.
    pub fn load_or_create(stored: Option<Vec<u8>>) -> (r: Result<(Identity, Option<Vec<u8>>), IdentityError>)
        ensures
            stored matches Some(b) ==> (if secret_valid(b@) {
                r matches Ok((id, fresh)) && id@ == b@ && fresh is None
            } else {
                r == Err::<(Identity, Option<Vec<u8>>), IdentityError>(IdentityError::InvalidIdentity)
            }),
            stored is None ==> (r is Ok ==> (r->Ok_0.1 matches Some(f) && f@ == r->Ok_0.0@)),
            stored is None && r is Err ==> r == Err::<(Identity, Option<Vec<u8>>), IdentityError>(IdentityError::KeyGeneration),
            r is Ok ==> r->Ok_0.0.wf(),
    {
        match stored {
            Some(bytes) => {
                if parse_secret(bytes.as_slice()) {
                    Ok((Identity { secret: bytes }, None))
                } else {
                    Err(IdentityError::InvalidIdentity)
                }
            },
            None => match random_secret() {
                Some(der) => {
                    let copy = der.clone();
                    proof {
                        assert(copy@ =~= der@);
                    }
                    Ok((Identity { secret: der }, Some(copy)))
                },
                None => Err(IdentityError::KeyGeneration),
            },
        }
    }

    /// The public key, base64 of its DER SubjectPublicKeyInfo.
    pub fn public_key(&self) -> (r: Result<String, IdentityError>)
        ensures
            r is Ok <==> public_spki(self@) is Some,
            r matches Ok(s) ==> s@ == base64_encoding(public_spki(self@)->0),
            r is Err ==> r == Err::<String, IdentityError>(IdentityError::Encoding),
    {
        match public_key_der(self.secret.as_slice()) {
            Some(spki) => Ok(base64_encode(spki.as_slice())),
            None => Err(IdentityError::Encoding),
        }
    }

    /// Signs the UTF-8 bytes of `value`; returns the base64 of the 64-byte signature.
    pub fn sign(&self, value: &str) -> (r: Result<String, IdentityError>)
        ensures
            r is Ok <==> signature_of(self@, vstd::string::StringSliceAdditionalSpecFns::spec_bytes(value)) is Some,
            r matches Ok(s) ==> s@ == base64_encoding(signature_of(self@, vstd::string::StringSliceAdditionalSpecFns::spec_bytes(value))->0),
            r is Err ==> r == Err::<String, IdentityError>(IdentityError::Signing),
    {
        match sign_message(self.secret.as_slice(), value.as_bytes()) {
            Some(signature) => Ok(base64_encode(signature.as_slice())),
            None => Err(IdentityError::Signing),
        }
    }

    /// The PKCS#8 DER bytes of the key, for protected local storage.
    pub fn secret_der(&self) -> (r: Vec<u8>)
        ensures
            r@ == self@,
    {
        let r = self.secret.clone();
        proof {
            assert(r@ =~= self.secret@);
        }
        r
    }
}

} // verus!
