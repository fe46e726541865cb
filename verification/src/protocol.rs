//! The signal envelope of the control connection (protocol version 1).
use serde_json::Value;
use uuid::Uuid;
use vstd::prelude::*;

verus! {

#[verifier::external_type_specification]
#[verifier::external_body]
pub struct ExUuid(Uuid);

#[verifier::external_type_specification]
#[verifier::external_body]
pub struct ExValue(Value);

/// Bits of a UUID's 128-bit value that hold its version (top nibble of byte 6) and its
/// variant (top two bits of byte 8).
pub open spec fn version_variant_bits(id: u128) -> u128 {
    id & 0xF000_C000_0000_0000_0000u128
}

/// Version 4 with the RFC 4122 variant: version nibble `4`, variant bits `10`.
pub open spec fn random_uuid(id: u128) -> bool {
    version_variant_bits(id) == 0x4000_8000_0000_0000_0000u128
}

/// Calls `uuid::Uuid::new_v4` and takes its `as_u128` value. The identifier is random;
/// `new_v4` masks its version and variant bits, so every outcome is a version-4 UUID.
#[verifier::external_body]
fn random_message_id() -> (id: u128)
    ensures
        random_uuid(id),
{
    Uuid::new_v4().as_u128()
}

/// Whether every character of `s` is an ASCII digit.
pub open spec fn all_digits(s: Seq<char>) -> bool {
    forall|i: int| 0 <= i < s.len() ==> '0' <= #[trigger] s[i] <= '9'
}

/// A year as `chrono` writes it: four digits, or a sign followed by at least four digits.
pub open spec fn year_text(s: Seq<char>) -> bool {
    (s.len() == 4 && all_digits(s)) || (s.len() >= 5 && (s[0] == '+' || s[0] == '-') && all_digits(
        s.drop_first(),
    ))
}

/// Fractional seconds as `chrono` writes them by default: none, or a dot followed by
/// three, six or nine digits.
pub open spec fn fraction_text(s: Seq<char>) -> bool {
    s.len() == 0 || ((s.len() == 4 || s.len() == 7 || s.len() == 10) && s[0] == '.' && all_digits(
        s.drop_first(),
    ))
}

/// Whether the `f` characters after the seconds of a timestamp whose year has `y`
/// characters are fractional seconds.
pub open spec fn fraction_at(s: Seq<char>, y: int, f: int) -> bool {
    fraction_text(s.subrange(y + 15, y + 15 + f))
}

/// `YYYY-MM-DDTHH:MM:SS[.fff]+00:00`: an RFC 3339 UTC timestamp in the form
/// `DateTime<Utc>::to_rfc3339` writes.
pub open spec fn utc_rfc3339_text(s: Seq<char>) -> bool {
    exists|y: int, f: int|
        #![trigger fraction_at(s, y, f)]
        {
            &&& 0 <= y && 0 <= f && s.len() == y + f + 21
            &&& year_text(s.subrange(0, y))
            &&& s[y] == '-' && all_digits(s.subrange(y + 1, y + 3))
            &&& s[y + 3] == '-' && all_digits(s.subrange(y + 4, y + 6))
            &&& s[y + 6] == 'T' && all_digits(s.subrange(y + 7, y + 9))
            &&& s[y + 9] == ':' && all_digits(s.subrange(y + 10, y + 12))
            &&& s[y + 12] == ':' && all_digits(s.subrange(y + 13, y + 15))
            &&& fraction_at(s, y, f)
            &&& s.subrange(y + 15 + f, s.len() as int) == "+00:00"@
        }
}

/// Calls `chrono::Utc::now` and renders it with `to_rfc3339`. The time itself is not
/// stated; every outcome has the RFC 3339 UTC form that `write_rfc3339` produces with
/// automatic sub-second digits and a `+00:00` offset.
#[verifier::external_body]
fn now_rfc3339() -> (t: String)
    ensures
        utc_rfc3339_text(t@),
{
    chrono::Utc::now().to_rfc3339()
}

/// One signal: envelope fields and an opaque JSON payload.
pub struct Signal {
    pub protocol_version: u32,
    /// The 128-bit value of the message's UUID.
    pub message_id: u128,
    pub timestamp: String,
    pub session_id: Option<Uuid>,
    pub kind: String,
    pub payload: Value,
}

impl Signal {
    /// A version-1 signal of type `kind` with a fresh random (version-4) message identifier
    /// and the current time as an RFC 3339 UTC timestamp.
    pub fn new(kind: &str, session_id: Option<Uuid>, payload: Value) -> (s: Self)
        ensures
            s.protocol_version == 1,
            random_uuid(s.message_id),
            utc_rfc3339_text(s.timestamp@),
            s.kind@ == kind@,
            s.session_id == session_id,
            s.payload == payload,
    {
        Signal {
            protocol_version: 1,
            message_id: random_message_id(),
            timestamp: now_rfc3339(),
            session_id,
            kind: kind.to_owned(),
            payload,
        }
    }
}

} // verus!
