use p256::ecdsa::{signature::Signer, Signature, SigningKey};
use p256::pkcs8::EncodePublicKey;
use remvora_agent::codec::Sha256Stream;
use remvora_agent::updater::{verify, Manifest, UpdateError, AGENT_VERSION};
use sha2::Digest;

fn manifest(version: &str, os: &str, hash: &str) -> Manifest {
    Manifest {
        version: version.into(),
        os: os.into(),
        arch: "x86_64".into(),
        sha256: hash.into(),
    }
}

fn json(m: &Manifest) -> Vec<u8> {
    format!(
        "{{\"version\":\"{}\",\"os\":\"{}\",\"arch\":\"{}\",\"sha256\":\"{}\"}}",
        m.version, m.os, m.arch, m.sha256
    )
    .into_bytes()
}

#[test]
fn signed_release_rejects_tampering_wrong_target_and_rollback() {
    let key = SigningKey::random(&mut rand_core::OsRng);
    let public = key.verifying_key().to_public_key_der().unwrap();
    let digest = sha2::Sha256::digest(b"test artifact");
    let hash: String = digest.iter().map(|byte| format!("{byte:02x}")).collect();
    let os = "linux";
    let arch = "x86_64";
    let good = manifest("99.0.0", os, &hash);
    let bytes = json(&good);
    let sig: Signature = key.sign(&bytes);
    let der = sig.to_der();
    let accepted = verify(&bytes, der.as_bytes(), public.as_bytes(), &digest, Some(good), AGENT_VERSION, os, arch).unwrap();
    assert_eq!(accepted.version, "99.0.0");
    assert_eq!(
        verify(&bytes, der.as_bytes(), public.as_bytes(), &sha2::Sha256::digest(b"modified"), Some(manifest("99.0.0", os, &hash)), AGENT_VERSION, os, arch).err(),
        Some(UpdateError::DigestMismatch)
    );
    for (invalid, error) in [
        (manifest("0.0.0", os, &hash), UpdateError::NotNewer),
        (manifest("99.0.0", "wrong-os", &hash), UpdateError::TargetMismatch),
    ] {
        let bytes = json(&invalid);
        let sig: Signature = key.sign(&bytes);
        assert_eq!(
            verify(&bytes, sig.to_der().as_bytes(), public.as_bytes(), &digest, Some(invalid), AGENT_VERSION, os, arch).err(),
            Some(error)
        );
    }
    let mut modified = bytes.clone();
    modified.push(b' ');
    assert_eq!(
        verify(&modified, der.as_bytes(), public.as_bytes(), &digest, Some(manifest("99.0.0", os, &hash)), AGENT_VERSION, os, arch).err(),
        Some(UpdateError::BadSignature)
    );
    assert_eq!(
        verify(&bytes, der.as_bytes(), public.as_bytes(), &digest, None, AGENT_VERSION, os, arch).err(),
        Some(UpdateError::BadManifest)
    );
    assert_eq!(
        verify(&vec![b' '; 4097], der.as_bytes(), public.as_bytes(), &digest, None, AGENT_VERSION, os, arch).err(),
        Some(UpdateError::ManifestTooLarge)
    );
    let bad_version = manifest("next", os, &hash);
    let bytes = json(&bad_version);
    let sig: Signature = key.sign(&bytes);
    assert_eq!(
        verify(&bytes, sig.to_der().as_bytes(), public.as_bytes(), &digest, Some(bad_version), AGENT_VERSION, os, arch).err(),
        Some(UpdateError::BadVersion)
    );
}

#[test]
fn streaming_digest_matches_one_shot() {
    let mut s = Sha256Stream::new();
    s.update(b"test ");
    s.update(b"artifact");
    assert_eq!(s.finish(), sha2::Sha256::digest(b"test artifact").to_vec());
    assert_eq!(remvora_agent::hex::hex_lower(&[0x0f, 0xa0, 0xff]), "0fa0ff");
}
