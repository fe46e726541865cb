//! Offline signed release verification. The control server cannot choose a trust key or
//! execute an update; a release is accepted only with a valid signature over a manifest
//! naming a newer version, this platform and the exact artifact digest.
use crate::hex::{hex_lower, hex_lower_spec};
use crate::text::text_eq;
use p256::ecdsa::signature::Verifier;
use p256::pkcs8::DecodePublicKey;
use vstd::prelude::*;

verus! {

/// Version of this agent.
pub const AGENT_VERSION: &'static str = "0.3.0";

/// Largest manifest, in bytes.
pub const MAX_MANIFEST_BYTES: usize = 4096;

/// Largest signature file, in bytes.
pub const MAX_SIGNATURE_BYTES: u64 = 256;

/// Largest trust-key file, in bytes.
pub const MAX_KEY_BYTES: u64 = 4096;

/// Largest artifact, in bytes (512 MiB).
pub const MAX_ARTIFACT_BYTES: u64 = 536_870_912;

/// The signed description of a release.
pub struct Manifest {
    pub version: String,
    pub os: String,
    pub arch: String,
    pub sha256: String,
}

/// The text of a manifest's fields.
pub struct ManifestFields {
    pub version: Seq<char>,
    pub os: Seq<char>,
    pub arch: Seq<char>,
    pub sha256: Seq<char>,
}

/// Why a release is refused.
#[derive(Clone, Copy, PartialEq, Eq, Structural, Debug)]
pub enum UpdateError {
    ManifestTooLarge,
    BadSignature,
    BadManifest,
    BadVersion,
    NotNewer,
    TargetMismatch,
    DigestMismatch,
}

/// Whether the DER SubjectPublicKeyInfo P-256 `key` verifies the DER ECDSA-SHA256
/// `signature` over `message`, as `p256` decides.
pub uninterp spec fn signature_valid(key: Seq<u8>, message: Seq<u8>, signature: Seq<u8>) -> bool;

/// Parses `key` with `VerifyingKey::from_public_key_der` and `signature` with
/// `Signature::from_der`, then calls `Verifier::verify`; true only when all three succeed.
/// The contract names the outcome, a function of the three byte strings.
#[verifier::external_body]
fn verify_signature(key: &[u8], message: &[u8], signature: &[u8]) -> (r: bool)
    ensures
        r == signature_valid(key@, message@, signature@),
{
    match (p256::ecdsa::VerifyingKey::from_public_key_der(key), p256::ecdsa::Signature::from_der(signature)) {
        (Ok(k), Ok(s)) => k.verify(message, &s).is_ok(),
        _ => false,
    }
}

/// Whether semantic version `candidate` is greater than `current` (`None` when either
/// fails to parse), as `semver` orders versions.
pub uninterp spec fn semver_newer(candidate: Seq<char>, current: Seq<char>) -> Option<bool>;

/// Parses both with `semver::Version::parse` and compares them with `>`; the contract
/// names the outcome.
#[verifier::external_body]
fn version_newer(candidate: &str, current: &str) -> (r: Option<bool>)
    ensures
        r == semver_newer(candidate@, current@),
{
    match (semver::Version::parse(candidate), semver::Version::parse(current)) {
        (Ok(a), Ok(b)) => Some(a > b),
        _ => None,
    }
}

/// The verdict on a release.
pub open spec fn release_verdict(
    manifest_bytes: Seq<u8>,
    signature: Seq<u8>,
    key: Seq<u8>,
    digest: Seq<u8>,
    manifest: Option<ManifestFields>,
    current: Seq<char>,
    os: Seq<char>,
    arch: Seq<char>,
) -> Result<(), UpdateError> {
    if manifest_bytes.len() > MAX_MANIFEST_BYTES {
        Err(UpdateError::ManifestTooLarge)
    } else if !signature_valid(key, manifest_bytes, signature) {
        Err(UpdateError::BadSignature)
    } else if manifest is None {
        Err(UpdateError::BadManifest)
    } else if semver_newer(manifest->0.version, current) is None {
        Err(UpdateError::BadVersion)
    } else if semver_newer(manifest->0.version, current) == Some(false) {
        Err(UpdateError::NotNewer)
    } else if manifest->0.os != os || manifest->0.arch != arch {
        Err(UpdateError::TargetMismatch)
    } else if manifest->0.sha256 != hex_lower_spec(digest) {
        Err(UpdateError::DigestMismatch)
    } else {
        Ok(())
    }
}

/// The fields of a parsed manifest.
pub open spec fn fields(m: Option<Manifest>) -> Option<ManifestFields> {
    match m {
        Some(x) => Some(ManifestFields { version: x.version@, os: x.os@, arch: x.arch@, sha256: x.sha256@ }),
        None => None,
    }
}

/// Verifies a release: the manifest bytes are at most 4 KiB and signed by the trusted key,
/// parse (`manifest` is their parse, `None` where parsing failed), name a version newer
/// than `current`, this `os` and `arch`, and the lower-case hex SHA-256 `digest` of the
/// artifact. Returns the manifest.
pub fn verify(
    manifest_bytes: &[u8],
    signature: &[u8],
    key: &[u8],
    digest: &[u8],
    manifest: Option<Manifest>,
    current: &str,
    os: &str,
    arch: &str,
) -> (r: Result<Manifest, UpdateError>)
    requires
        digest@.len() * 2 <= usize::MAX,
    ensures
        ({
            let v = release_verdict(manifest_bytes@, signature@, key@, digest@, fields(manifest), current@, os@, arch@);
            &&& r is Ok <==> v is Ok
            &&& r is Err ==> r == Err::<Manifest, UpdateError>(v->Err_0)
            &&& r is Ok ==> r->Ok_0 == manifest->0
        }),
{
    if manifest_bytes.len() > MAX_MANIFEST_BYTES {
        return Err(UpdateError::ManifestTooLarge);
    }
    if !verify_signature(key, manifest_bytes, signature) {
        return Err(UpdateError::BadSignature);
    }
    let m = match manifest {
        None => {
            return Err(UpdateError::BadManifest);
        },
        Some(m) => m,
    };
    match version_newer(m.version.as_str(), current) {
        None => {
            return Err(UpdateError::BadVersion);
        },
        Some(false) => {
            return Err(UpdateError::NotNewer);
        },
        Some(true) => {},
    }
    if !text_eq(m.os.as_str(), os) || !text_eq(m.arch.as_str(), arch) {
        return Err(UpdateError::TargetMismatch);
    }
    let hash = hex_lower(digest);
    if !text_eq(m.sha256.as_str(), hash.as_str()) {
        return Err(UpdateError::DigestMismatch);
    }
    Ok(m)
}

/// A signed manifest is honoured only for a newer version, this platform and the exact
/// artifact bytes.
pub proof fn law_release_requires_signature_version_target_and_digest(
    manifest_bytes: Seq<u8>,
    signature: Seq<u8>,
    key: Seq<u8>,
    digest: Seq<u8>,
    manifest: Option<ManifestFields>,
    current: Seq<char>,
    os: Seq<char>,
    arch: Seq<char>,
)
    requires
        release_verdict(manifest_bytes, signature, key, digest, manifest, current, os, arch) is Ok,
    ensures
        signature_valid(key, manifest_bytes, signature),
        manifest matches Some(m) && semver_newer(m.version, current) == Some(true) && m.os == os
            && m.arch == arch && m.sha256 == hex_lower_spec(digest),
{
}

/// Whether a size read from disk stays within `max`.
pub fn within_limit(len: u64, max: u64) -> (r: bool)
    ensures
        r == (len <= max),
{
    len <= max
}

} // verus!
