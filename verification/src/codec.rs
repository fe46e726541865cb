//! Base64 and SHA-256, computed by the `base64` and `sha2` crates.
use base64::engine::general_purpose::STANDARD;
use base64::Engine;
use sha2::Digest;
use vstd::prelude::*;

verus! {

/// What `STANDARD.encode` (RFC 4648 alphabet, padded) returns for these bytes.
pub uninterp spec fn base64_encoding(bytes: Seq<u8>) -> Seq<char>;

/// What `STANDARD.decode` returns for this text: `None` where it reports an error.
pub uninterp spec fn base64_decoding(text: Seq<char>) -> Option<Seq<u8>>;

/// Calls `base64::engine::general_purpose::STANDARD.encode`; the contract names its
/// result, a function of the bytes alone.
#[verifier::external_body]
pub(crate) fn base64_encode(bytes: &[u8]) -> (s: String)
    ensures
        s@ == base64_encoding(bytes@),
        s@.len() == 4 * ((bytes@.len() + 2) / 3),
{
    STANDARD.encode(bytes)
}

/// Calls `base64::engine::general_purpose::STANDARD.decode` on the text's bytes and keeps
/// the decoded bytes, or `None` for an error; the contract names the outcome.
#[verifier::external_body]
pub(crate) fn base64_decode(text: &str) -> (r: Option<Vec<u8>>)
    ensures
        r is Some <==> base64_decoding(text@) is Some,
        r matches Some(v) ==> v@ == base64_decoding(text@)->0,
{
    STANDARD.decode(text).ok()
}

/// A running SHA-256 computation. `sha2::Sha256` is an alias of a generic core wrapper;
/// its state is held here as an opaque field and described by the bytes it absorbed.
#[verifier::external_body]
pub struct Sha256State {
    inner: sha2::Sha256,
}

/// The bytes a SHA-256 state has absorbed since it was created.
pub uninterp spec fn absorbed(h: Sha256State) -> Seq<u8>;

/// The SHA-256 digest of a byte sequence, as `sha2` computes it.
pub uninterp spec fn sha256_digest(data: Seq<u8>) -> Seq<u8>;

/// Calls `sha2::Sha256::new`: a state that has absorbed nothing.
#[verifier::external_body]
pub(crate) fn sha256_new() -> (h: Sha256State)
    ensures
        absorbed(h) == Seq::<u8>::empty(),
{
    Sha256State { inner: sha2::Sha256::new() }
}

/// Calls `Digest::update`, which appends `data` to what the state has absorbed.
#[verifier::external_body]
pub(crate) fn sha256_update(h: &mut Sha256State, data: &[u8])
    ensures
        absorbed(*final(h)) == absorbed(*old(h)) + data@,
{
    h.inner.update(data);
}

/// Calls `Digest::finalize` on a copy of the state: the 32-byte digest of what it absorbed.
#[verifier::external_body]
pub(crate) fn sha256_finish(h: &Sha256State) -> (d: Vec<u8>)
    ensures
        d@ == sha256_digest(absorbed(*h)),
        d@.len() == 32,
{
    h.inner.clone().finalize().to_vec()
}

/// A streaming SHA-256 over the bytes given to it.
pub struct Sha256Stream {
    state: Sha256State,
}

impl View for Sha256Stream {
    type V = Seq<u8>;

    closed spec fn view(&self) -> Seq<u8> {
        absorbed(self.state)
    }
}

impl Sha256Stream {
    /// A stream that has seen nothing.
    pub fn new() -> (s: Self)
        ensures
            s@ == Seq::<u8>::empty(),
    {
        Sha256Stream { state: sha256_new() }
    }

    /// Appends `data` to the hashed bytes.
    pub fn update(&mut self, data: &[u8])
        ensures
            final(self)@ == old(self)@ + data@,
    {
        sha256_update(&mut self.state, data);
    }

    /// The 32-byte SHA-256 digest of every byte given so far.
    pub fn finish(&self) -> (d: Vec<u8>)
        ensures
            d@ == sha256_digest(self@),
            d@.len() == 32,
    {
        sha256_finish(&self.state)
    }
}

} // verus!
