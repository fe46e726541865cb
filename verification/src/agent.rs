//! Enrollment and connection rules: which server URLs are trusted, how challenges must be
//! bound, and the shape of device identifiers.
use crate::text::{chars_of, has_prefix, text_eq};
use vstd::prelude::*;

verus! {

/// Whether `scheme`/`host` is an acceptable server: HTTPS, or plain HTTP to a loopback host
/// when loopback testing was explicitly enabled.
pub open spec fn server_scheme_ok(scheme: Seq<char>, host: Option<Seq<char>>, allow_loopback_http: bool) -> bool {
    scheme == "https"@ || (allow_loopback_http && scheme == "http"@ && (host == Some("127.0.0.1"@)
        || host == Some("localhost"@) || host == Some("[::1]"@)))
}

/// Requires HTTPS outside explicitly enabled loopback tests.
pub fn server_scheme_allowed(scheme: &str, host: Option<&str>, allow_loopback_http: bool) -> (r: bool)
    ensures
        r == server_scheme_ok(scheme@, match host { Some(h) => Some(h@), None => None }, allow_loopback_http),
{
    if text_eq(scheme, "https") {
        return true;
    }
    if !allow_loopback_http || !text_eq(scheme, "http") {
        return false;
    }
    match host {
        Some(h) => text_eq(h, "127.0.0.1") || text_eq(h, "localhost") || text_eq(h, "[::1]"),
        None => false,
    }
}

/// The server URL carries no credentials, query or fragment.
pub fn server_url_clean(username_empty: bool, has_password: bool, has_query: bool, has_fragment: bool) -> (r: bool)
    ensures
        r == (username_empty && !has_password && !has_query && !has_fragment),
{
    username_empty && !has_password && !has_query && !has_fragment
}

/// The WebSocket scheme for the server's scheme.
pub fn websocket_scheme(https: bool) -> (s: &'static str)
    ensures
        https ==> s == "wss",
        !https ==> s == "ws",
{
    if https {
        "wss"
    } else {
        "ws"
    }
}

/// The prefix a challenge for `purpose` and `device` must begin with.
pub open spec fn challenge_prefix(purpose: Seq<char>, device: Seq<char>) -> Seq<char> {
    "remvora:v1:"@ + purpose + seq![':'] + device + seq![':']
}

/// A challenge is signed only when it is bound to this purpose and device:
/// `remvora:v1:{purpose}:{device}:` followed by the server's nonce.
pub fn challenge_bound(text: &str, purpose: &str, device: &str) -> (r: bool)
    ensures
        r == has_prefix(text@, challenge_prefix(purpose@, device@)),
{
    let mut prefix = chars_of("remvora:v1:");
    let mut p = chars_of(purpose);
    let mut d = chars_of(device);
    prefix.append(&mut p);
    prefix.push(':');
    prefix.append(&mut d);
    prefix.push(':');
    proof {
        assert(prefix@ =~= challenge_prefix(purpose@, device@));
    }
    let t = chars_of(text);
    crate::text::chars_start_with(&t, &prefix)
}

/// Whether `text` parses as a UUID, as `uuid::Uuid::parse_str` decides.
pub uninterp spec fn uuid_text(text: Seq<char>) -> bool;

/// Calls `uuid::Uuid::parse_str`; true when it succeeds.
#[verifier::external_body]
fn parses_as_uuid(text: &str) -> (r: bool)
    ensures
        r == uuid_text(text@),
{
    uuid::Uuid::parse_str(text).is_ok()
}

/// A device identifier issued by the server must be a UUID.
pub fn device_id_valid(text: &str) -> (r: bool)
    ensures
        r == uuid_text(text@),
{
    parses_as_uuid(text)
}

} // verus!
