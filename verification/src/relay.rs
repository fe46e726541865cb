//! Framing of the authenticated WSS fallback: outgoing data is cut into numbered base64
//! parts, and only small, unfragmented input reaches the session's handlers.
use crate::codec::{base64_decode, base64_decoding, base64_encode, base64_encoding};
use crate::text::text_eq;
use vstd::prelude::*;

verus! {

/// Largest payload relayed at once, in bytes (2 MiB).
pub const MAX_RELAY_BYTES: usize = 2_097_152;

/// Bytes per relayed part.
pub const PART_BYTES: usize = 32768;

/// Longest base64 text of one relayed part: the encoding of 32 KiB.
pub const MAX_PART_TEXT: usize = 43692;

/// Largest base64 text of relayed control input.
pub const MAX_INPUT_TEXT: usize = 28000;

/// Why a relay frame is refused.
#[derive(Clone, Copy, PartialEq, Eq, Structural, Debug)]
pub enum RelayError {
    TooLarge,
    Fragmented,
    MissingData,
    InputTooLarge,
    BadEncoding,
    FilesDenied,
    UnknownChannel,
}

/// One relayed part.
#[derive(PartialEq, Eq, Debug)]
pub struct RelayPart {
    pub part: usize,
    pub last: bool,
    /// The part's bytes in base64.
    pub data: String,
}

/// Number of parts a payload of `len` bytes is cut into.
pub open spec fn part_count(len: nat) -> nat {
    ((len + PART_BYTES - 1) / PART_BYTES as int) as nat
}

/// Where part `i` of a `len`-byte payload ends.
pub open spec fn part_end(i: nat, len: nat) -> nat {
    if (i + 1) * PART_BYTES < len {
        ((i + 1) * PART_BYTES) as nat
    } else {
        len
    }
}

/// The bytes of part `i`.
pub open spec fn part_bytes(data: Seq<u8>, i: nat) -> Seq<u8> {
    data.subrange(i * PART_BYTES, part_end(i, data.len()) as int)
}

/// The bytes of parts `0..n`, joined in order.
pub open spec fn joined(data: Seq<u8>, n: nat) -> Seq<u8>
    decreases n,
{
    if n == 0 {
        Seq::empty()
    } else {
        joined(data, (n - 1) as nat) + part_bytes(data, (n - 1) as nat)
    }
}

/// Cuts a payload into parts of at most 32 KiB; part `i` is numbered `i`, and only the
/// part that reaches the end is marked last. Each part is sent as padded base64, at most
/// 43,692 characters. An empty payload has no parts.
pub fn parts(data: &[u8]) -> (r: Result<Vec<RelayPart>, RelayError>)
    ensures
        r is Err <==> data@.len() > MAX_RELAY_BYTES,
        r is Err ==> r == Err::<Vec<RelayPart>, RelayError>(RelayError::TooLarge),
        r matches Ok(v) ==> {
            &&& v@.len() == part_count(data@.len())
            &&& forall|i: int|
                0 <= i < v@.len() ==> {
                    &&& (#[trigger] v@[i]).part == i
                    &&& v@[i].last == ((i + 1) * PART_BYTES >= data@.len())
                    &&& v@[i].data@ == base64_encoding(part_bytes(data@, i as nat))
                    &&& v@[i].data@.len() == 4 * ((part_bytes(data@, i as nat).len() + 2) / 3)
                    &&& v@[i].data@.len() <= MAX_PART_TEXT
                }
        },
{
    let len = data.len();
    if len > MAX_RELAY_BYTES {
        return Err(RelayError::TooLarge);
    }
    let mut out: Vec<RelayPart> = Vec::new();
    let mut start: usize = 0;
    let mut i: usize = 0;
    while start < len
        invariant
            len == data@.len(),
            len <= MAX_RELAY_BYTES,
            start <= len,
            start < len ==> start == i * PART_BYTES,
            start == len ==> i == part_count(len as nat),
            out@.len() == i,
            forall|j: int|
                0 <= j < i ==> {
                    &&& (#[trigger] out@[j]).part == j
                    &&& out@[j].last == ((j + 1) * PART_BYTES >= len)
                    &&& out@[j].data@ == base64_encoding(part_bytes(data@, j as nat))
                    &&& out@[j].data@.len() == 4 * ((part_bytes(data@, j as nat).len() + 2) / 3)
                    &&& out@[j].data@.len() <= MAX_PART_TEXT
                },
        decreases len - start,
    {
        let end = if len - start > PART_BYTES { start + PART_BYTES } else { len };
        let last = (i + 1) * PART_BYTES >= len;
        let slice = slice_range(data, start, end);
        let encoded = base64_encode(slice.as_slice());
        proof {
            assert(slice@ == part_bytes(data@, i as nat));
            assert(slice@.len() <= PART_BYTES);
            if end == len {
                assert(part_count(len as nat) == i + 1) by (nonlinear_arith)
                    requires
                        start == i * PART_BYTES,
                        start < len,
                        len - start <= PART_BYTES,
                ;
            }
        }
        out.push(RelayPart { part: i, last, data: encoded });
        start = end;
        i = i + 1;
    }
    proof {
        if len == 0 {
            assert(part_count(0) == 0);
        }
    }
    Ok(out)
}

/// The bytes of `data` from `start` to `end`.
fn slice_range(data: &[u8], start: usize, end: usize) -> (s: Vec<u8>)
    requires
        start <= end <= data@.len(),
    ensures
        s@ == data@.subrange(start as int, end as int),
{
    let mut s: Vec<u8> = Vec::new();
    let mut k = start;
    while k < end
        invariant
            start <= k <= end <= data@.len(),
            s@ == data@.subrange(start as int, k as int),
        decreases end - k,
    {
        s.push(data[k]);
        proof {
            assert(data@.subrange(start as int, k + 1) =~= data@.subrange(start as int, k as int).push(data@[k as int]));
        }
        k = k + 1;
    }
    s
}

/// The parts of a payload join back into the payload.
pub proof fn law_parts_reassemble(data: Seq<u8>)
    ensures
        joined(data, part_count(data.len())) == data,
{
    lemma_joined(data, part_count(data.len()));
    let n = part_count(data.len());
    if n > 0 {
        assert((n - 1) * PART_BYTES < data.len()) by (nonlinear_arith)
            requires
                n == (data.len() + PART_BYTES - 1) / PART_BYTES as int,
                n > 0,
        ;
        assert(n * PART_BYTES >= data.len()) by (nonlinear_arith)
            requires
                n == (data.len() + PART_BYTES - 1) / PART_BYTES as int,
        ;
    } else {
        assert(data.len() == 0) by (nonlinear_arith)
            requires
                0 == (data.len() + PART_BYTES - 1) / PART_BYTES as int,
        ;
    }
    assert(data.subrange(0, data.len() as int) =~= data);
}

proof fn lemma_joined(data: Seq<u8>, n: nat)
    requires
        n == 0 || (n - 1) * PART_BYTES < data.len(),
    ensures
        joined(data, n) == data.subrange(0, if n * PART_BYTES < data.len() { (n * PART_BYTES) as int } else { data.len() as int }),
    decreases n,
{
    if n == 0 {
        assert(joined(data, 0) =~= data.subrange(0, 0));
    } else {
        if n >= 2 {
            assert((n - 2) * PART_BYTES < data.len()) by (nonlinear_arith)
                requires
                    (n - 1) * PART_BYTES < data.len(),
                    n >= 2,
            ;
        }
        lemma_joined(data, (n - 1) as nat);
        assert((n - 1) * PART_BYTES < data.len());
        assert(joined(data, n) =~= data.subrange(0, if n * PART_BYTES < data.len() { (n * PART_BYTES) as int } else { data.len() as int }));
    }
}

/// Which handler relayed input reaches.
#[derive(Clone, Copy, PartialEq, Eq, Structural, Debug)]
pub enum RelayTarget {
    Input,
    Files,
}

/// The verdict on relayed input.
pub open spec fn input_verdict(
    unfragmented: bool,
    data: Option<Seq<char>>,
    data_bytes: nat,
    channel: Option<Seq<char>>,
    has_files: bool,
) -> Result<RelayTarget, RelayError> {
    if !unfragmented {
        Err(RelayError::Fragmented)
    } else if data is None {
        Err(RelayError::MissingData)
    } else if data_bytes > MAX_INPUT_TEXT {
        Err(RelayError::InputTooLarge)
    } else if base64_decoding(data->0) is None {
        Err(RelayError::BadEncoding)
    } else if channel == Some("input"@) {
        Ok(RelayTarget::Input)
    } else if channel == Some("files"@) {
        if has_files {
            Ok(RelayTarget::Files)
        } else {
            Err(RelayError::FilesDenied)
        }
    } else {
        Err(RelayError::UnknownChannel)
    }
}

/// Accepts relayed input: a single part (part 0 marked last) whose base64 text is at most
/// 28 000 bytes, for the input channel, or for the files channel where files are shared.
/// Returns the handler and the decoded bytes.
pub fn accept_input(
    part_zero: bool,
    last: bool,
    data: Option<&str>,
    channel: Option<&str>,
    has_files: bool,
) -> (r: Result<(RelayTarget, Vec<u8>), RelayError>)
    ensures
        ({
            let v = input_verdict(
                part_zero && last,
                match data { Some(d) => Some(d@), None => None },
                match data { Some(d) => d.len() as nat, None => 0 },
                match channel { Some(c) => Some(c@), None => None },
                has_files,
            );
            &&& r is Ok <==> v is Ok
            &&& r is Err ==> r == Err::<(RelayTarget, Vec<u8>), RelayError>(v->Err_0)
            &&& r matches Ok((t, bytes)) ==> t == v->Ok_0 && bytes@ == base64_decoding(data->0@)->0
        }),
{
    if !(part_zero && last) {
        return Err(RelayError::Fragmented);
    }
    let text = match data {
        None => {
            return Err(RelayError::MissingData);
        },
        Some(t) => t,
    };
    if text.len() > MAX_INPUT_TEXT {
        return Err(RelayError::InputTooLarge);
    }
    let bytes = match base64_decode(text) {
        None => {
            return Err(RelayError::BadEncoding);
        },
        Some(b) => b,
    };
    let target = match channel {
        Some(c) => {
            if text_eq(c, "input") {
                RelayTarget::Input
            } else if text_eq(c, "files") {
                if has_files {
                    RelayTarget::Files
                } else {
                    return Err(RelayError::FilesDenied);
                }
            } else {
                return Err(RelayError::UnknownChannel);
            }
        },
        None => {
            return Err(RelayError::UnknownChannel);
        },
    };
    Ok((target, bytes))
}

} // verus!
