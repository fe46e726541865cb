//! Rules of the explicitly shared flat folder: which names may be used, one bounded
//! transfer at a time, a per-session byte budget, exact offsets and digest verification.
//! The session loop performs the file-system work and asks these rules at each step.
use crate::codec::{
    absorbed, base64_decode, base64_decoding, base64_encode, base64_encoding, sha256_digest,
    sha256_finish, sha256_new, sha256_update, Sha256State,
};
use crate::hex::{hex_lower, hex_lower_spec};
use crate::desktop::utf8_len;
use crate::text::{chars_of, text_eq};
use vstd::prelude::*;

verus! {

/// Largest file transferred, in bytes (100 MiB).
pub const MAX: u64 = 104_857_600;

/// Bytes a session may reserve for transfers in total (500 MiB).
pub const BUDGET: u64 = 524_288_000;

/// Largest chunk exchanged, in bytes (12 KiB).
pub const CHUNK: usize = 12_288;

/// Longest accepted file name, in UTF-8 bytes.
pub const MAX_NAME_BYTES: usize = 180;

/// Most files listed.
pub const MAX_LISTED: usize = 200;

/// Why a file name is refused.
#[derive(Clone, Copy, PartialEq, Eq, Structural, Debug)]
pub enum NameError {
    Invalid,
    Reserved,
}

/// A control character: U+0000–U+001F or U+007F–U+009F.
pub open spec fn control_char(c: char) -> bool {
    (c as u32) < 32 || (127 <= (c as u32) && (c as u32) <= 159)
}

/// Characters that separate paths or are refused by common file systems.
pub open spec fn forbidden_char(c: char) -> bool {
    c == '/' || c == '\\' || c == ':' || c == '<' || c == '>' || c == '"' || c == '|' || c == '?'
        || c == '*'
}

/// A name that is not a path: non-empty, at most 180 UTF-8 bytes, not starting with a dot,
/// not ending with a dot or a space, with no control or separator characters.
pub open spec fn plain_name(s: Seq<char>, byte_len: nat) -> bool {
    &&& s.len() > 0
    &&& byte_len <= MAX_NAME_BYTES
    &&& s[0] != '.'
    &&& s.last() != '.'
    &&& s.last() != ' '
    &&& forall|i: int| 0 <= i < s.len() ==> !control_char(#[trigger] s[i]) && !forbidden_char(s[i])
}

/// `k` is where the part of `s` before its first dot ends.
pub open spec fn is_stem_len(s: Seq<char>, k: int) -> bool {
    &&& 0 <= k <= s.len()
    &&& forall|j: int| 0 <= j < k ==> #[trigger] s[j] != '.'
    &&& (k == s.len() || s[k] == '.')
}

/// The part of `s` before its first dot.
pub open spec fn stem(s: Seq<char>) -> Seq<char> {
    s.take(choose|k: int| is_stem_len(s, k))
}

/// ASCII upper-casing of one character; other characters are unchanged.
pub open spec fn ascii_upper(c: char) -> char {
    if 'a' <= c && c <= 'z' {
        ((c as u32) - 32) as char
    } else {
        c
    }
}

/// ASCII upper-casing of every character.
pub open spec fn upper_seq(s: Seq<char>) -> Seq<char> {
    s.map_values(|c: char| ascii_upper(c))
}

/// A Windows device name: CON, PRN, AUX, NUL, COM1–COM9 or LPT1–LPT9.
pub open spec fn reserved_device(u: Seq<char>) -> bool {
    ||| u =~= seq!['C', 'O', 'N']
    ||| u =~= seq!['P', 'R', 'N']
    ||| u =~= seq!['A', 'U', 'X']
    ||| u =~= seq!['N', 'U', 'L']
    ||| (u.len() == 4 && u[0] == 'C' && u[1] == 'O' && u[2] == 'M' && '1' <= u[3] && u[3] <= '9')
    ||| (u.len() == 4 && u[0] == 'L' && u[1] == 'P' && u[2] == 'T' && '1' <= u[3] && u[3] <= '9')
}

/// The verdict on a file name given its characters and its UTF-8 length.
pub open spec fn name_verdict(s: Seq<char>, byte_len: nat) -> Result<(), NameError> {
    if !plain_name(s, byte_len) {
        Err(NameError::Invalid)
    } else if reserved_device(upper_seq(stem(s))) {
        Err(NameError::Reserved)
    } else {
        Ok(())
    }
}

/// An accepted name is a single path component: it is non-empty, at most 180 UTF-8
/// bytes, neither starts with a dot nor ends with a dot or a space, and holds none of
/// `/ \ : < > " | ? *` and no control character (U+0000–U+001F, U+007F–U+009F). A name
/// holding any of those separator characters, or a control character, is refused as
/// invalid.
pub proof fn law_accepted_names_are_plain(s: Seq<char>, byte_len: nat)
    ensures
        name_verdict(s, byte_len) is Ok ==> {
            &&& 0 < s.len()
            &&& byte_len <= 180
            &&& s[0] != '.'
            &&& s[s.len() - 1] != '.' && s[s.len() - 1] != ' '
            &&& forall|i: int|
                0 <= i < s.len() ==> {
                    &&& #[trigger] s[i] != '/' && s[i] != '\\' && s[i] != ':' && s[i] != '<'
                    &&& s[i] != '>' && s[i] != '"' && s[i] != '|' && s[i] != '?' && s[i] != '*'
                    &&& (s[i] as u32) >= 32
                    &&& !(127 <= (s[i] as u32) && (s[i] as u32) <= 159)
                }
        },
        (exists|i: int|
            0 <= i < s.len() && (#[trigger] s[i] == '/' || s[i] == '\\' || s[i] == ':' || s[i] == '<' || s[i] == '>'
                || s[i] == '"' || s[i] == '|' || s[i] == '?' || s[i] == '*' || control_char(s[i]))) ==> name_verdict(
            s,
            byte_len,
        ) == Err::<(), NameError>(NameError::Invalid),
{
    if exists|i: int|
        0 <= i < s.len() && (#[trigger] s[i] == '/' || s[i] == '\\' || s[i] == ':' || s[i] == '<' || s[i] == '>'
            || s[i] == '"' || s[i] == '|' || s[i] == '?' || s[i] == '*' || control_char(s[i])) {
        let i = choose|i: int|
            0 <= i < s.len() && (#[trigger] s[i] == '/' || s[i] == '\\' || s[i] == ':' || s[i] == '<' || s[i] == '>'
                || s[i] == '"' || s[i] == '|' || s[i] == '?' || s[i] == '*' || control_char(s[i]));
        assert(control_char(s[i]) || forbidden_char(s[i]));
        assert(!plain_name(s, byte_len));
    }
}

proof fn lemma_stem_len_unique(s: Seq<char>, k: int)
    requires
        is_stem_len(s, k),
    ensures
        stem(s) == s.take(k),
{
    let c = choose|k: int| is_stem_len(s, k);
    assert(is_stem_len(s, c));
    if c < k {
        assert(s[c] != '.');
    } else if k < c {
        assert(s[k] != '.');
    }
}

fn upper(c: char) -> (r: char)
    ensures
        r == ascii_upper(c),
{
    if 'a' <= c && c <= 'z' {
        ((c as u32) - 32) as u8 as char
    } else {
        c
    }
}

fn is_reserved(u: &Vec<char>) -> (r: bool)
    ensures
        r == reserved_device(u@),
{
    if u.len() == 3 {
        let r = (u[0] == 'C' && u[1] == 'O' && u[2] == 'N') || (u[0] == 'P' && u[1] == 'R' && u[2]
            == 'N') || (u[0] == 'A' && u[1] == 'U' && u[2] == 'X') || (u[0] == 'N' && u[1] == 'U'
            && u[2] == 'L');
        proof {
            if u@[0] == 'C' && u@[1] == 'O' && u@[2] == 'N' {
                assert(u@ =~= seq!['C', 'O', 'N']);
            }
            if u@[0] == 'P' && u@[1] == 'R' && u@[2] == 'N' {
                assert(u@ =~= seq!['P', 'R', 'N']);
            }
            if u@[0] == 'A' && u@[1] == 'U' && u@[2] == 'X' {
                assert(u@ =~= seq!['A', 'U', 'X']);
            }
            if u@[0] == 'N' && u@[1] == 'U' && u@[2] == 'L' {
                assert(u@ =~= seq!['N', 'U', 'L']);
            }
        }
        r
    } else if u.len() == 4 {
        ((u[0] == 'C' && u[1] == 'O' && u[2] == 'M') || (u[0] == 'L' && u[1] == 'P' && u[2] == 'T'))
            && '1' <= u[3] && u[3] <= '9'
    } else {
        false
    }
}

/// Accepts a plain file name inside the shared folder and returns it unchanged.
pub fn name(value: &str) -> (r: Result<&str, NameError>)
    ensures
        r is Ok ==> r == Ok::<&str, NameError>(value),
        r is Ok <==> name_verdict(value@, value.len() as nat) is Ok,
        r is Ok ==> forall|i: int|
            0 <= i < value@.len() ==> {
                &&& #[trigger] value@[i] != '/' && value@[i] != '\\' && value@[i] != ':' && value@[i] != '<'
                &&& value@[i] != '>' && value@[i] != '"' && value@[i] != '|' && value@[i] != '?'
                &&& value@[i] != '*' && (value@[i] as u32) >= 32
                &&& !(127 <= (value@[i] as u32) && (value@[i] as u32) <= 159)
            },
        r is Err ==> r == Err::<&str, NameError>(name_verdict(value@, value.len() as nat)->Err_0),
{
    proof {
        law_accepted_names_are_plain(value@, value.len() as nat);
    }
    let chars = chars_of(value);
    let n = chars.len();
    if n == 0 || value.len() > MAX_NAME_BYTES || chars[0] == '.' || chars[n - 1] == '.' || chars[n
        - 1] == ' ' {
        return Err(NameError::Invalid);
    }
    let mut i: usize = 0;
    while i < n
        invariant
            n == chars@.len(),
            chars@ == value@,
            i <= n,
            forall|j: int| 0 <= j < i ==> !control_char(#[trigger] chars@[j]) && !forbidden_char(chars@[j]),
        decreases n - i,
    {
        let c = chars[i];
        let code = c as u32;
        if code < 32 || (127 <= code && code <= 159) || c == '/' || c == '\\' || c == ':' || c == '<'
            || c == '>' || c == '"' || c == '|' || c == '?' || c == '*' {
            proof {
                assert(control_char(chars@[i as int]) || forbidden_char(chars@[i as int]));
            }
            return Err(NameError::Invalid);
        }
        i = i + 1;
    }
    proof {
        assert(plain_name(chars@, value.len() as nat));
    }
    let mut k: usize = 0;
    let mut u: Vec<char> = Vec::new();
    while k < n && chars[k] != '.'
        invariant
            n == chars@.len(),
            chars@ == value@,
            plain_name(chars@, value.len() as nat),
            k <= n,
            forall|j: int| 0 <= j < k ==> #[trigger] chars@[j] != '.',
            u@ == upper_seq(chars@.take(k as int)),
        decreases n - k,
    {
        u.push(upper(chars[k]));
        proof {
            assert(upper_seq(chars@.take(k + 1)) =~= upper_seq(chars@.take(k as int)).push(
                ascii_upper(chars@[k as int]),
            ));
        }
        k = k + 1;
    }
    proof {
        assert(is_stem_len(chars@, k as int));
        lemma_stem_len_unique(chars@, k as int);
    }
    if is_reserved(&u) {
        return Err(NameError::Reserved);
    }
    Ok(value)
}

/// Why a transfer request is refused. Any refusal ends the transfer in progress.
#[derive(Clone, Copy, PartialEq, Eq, Structural, Debug)]
pub enum TransferError {
    Busy,
    MissingSize,
    QuotaExceeded,
    NoUpload,
    OffsetMismatch,
    BadEncoding,
    InvalidChunk,
    Incomplete,
    DigestMismatch,
    NoDownload,
    Unavailable,
}

/// One direction of a transfer: its announced size, the bytes moved so far and their hash.
pub struct Transfer {
    size: u64,
    offset: u64,
    hash: Sha256State,
}

/// The abstract form of a transfer.
pub struct TransferView {
    pub size: nat,
    pub offset: nat,
    /// The bytes moved so far, in order.
    pub data: Seq<u8>,
}

impl View for Transfer {
    type V = TransferView;

    closed spec fn view(&self) -> TransferView {
        TransferView { size: self.size as nat, offset: self.offset as nat, data: absorbed(self.hash) }
    }
}

/// What a `next` request calls for.
#[derive(PartialEq, Eq, Debug)]
pub enum NextStep {
    /// The download is complete; its digest in lower-case hex and its size.
    Complete { sha256: String, size: u64 },
    /// Read this many bytes at the current offset.
    Read(usize),
}

/// The abstract state of a file session.
pub struct FilesView {
    pub upload: Option<TransferView>,
    pub download: Option<TransferView>,
    /// Bytes reserved by transfers begun in this session.
    pub reserved: nat,
}

/// Transfer bookkeeping of one file session.
pub struct Transfers {
    upload: Option<Transfer>,
    download: Option<Transfer>,
    reserved: u64,
}

/// The abstract form of an optional transfer.
pub open spec fn opt_view(t: Option<Transfer>) -> Option<TransferView> {
    match t {
        Some(x) => Some(x@),
        None => None,
    }
}

impl View for Transfers {
    type V = FilesView;

    closed spec fn view(&self) -> FilesView {
        FilesView { upload: opt_view(self.upload), download: opt_view(self.download), reserved: self.reserved as nat }
    }
}

/// A transfer's bytes match its offset, which never passes its size, which never passes 100 MiB.
pub open spec fn transfer_ok(t: TransferView) -> bool {
    t.offset == t.data.len() && t.offset <= t.size && t.size <= MAX
}

/// The invariant of a file session: at most one transfer at a time, each consistent, and
/// at most 500 MiB reserved.
pub open spec fn files_ok(v: FilesView) -> bool {
    &&& !(v.upload is Some && v.download is Some)
    &&& (v.upload matches Some(t) ==> transfer_ok(t))
    &&& (v.download matches Some(t) ==> transfer_ok(t))
    &&& v.reserved <= BUDGET
}

/// Whether a new transfer of `size` bytes fits: at most 100 MiB, within the session budget.
pub open spec fn fits(v: FilesView, size: nat) -> bool {
    size <= MAX && v.reserved + size <= BUDGET
}

/// The verdict on starting an upload of the announced size.
pub open spec fn upload_verdict(v: FilesView, size: Option<u64>) -> Result<u64, TransferError> {
    if v.upload is Some || v.download is Some {
        Err(TransferError::Busy)
    } else if size is None {
        Err(TransferError::MissingSize)
    } else if !fits(v, size->0 as nat) {
        Err(TransferError::QuotaExceeded)
    } else {
        Ok(size->0)
    }
}

/// The verdict on a chunk whose offset and decoded length are given.
pub open spec fn chunk_verdict(v: FilesView, offset: u64, decoded: Option<Seq<u8>>) -> Result<(), TransferError> {
    if v.upload is None {
        Err(TransferError::NoUpload)
    } else if offset != v.upload->0.offset {
        Err(TransferError::OffsetMismatch)
    } else if decoded is None {
        Err(TransferError::BadEncoding)
    } else if decoded->0.len() == 0 || decoded->0.len() > CHUNK || offset + decoded->0.len() > v.upload->0.size {
        Err(TransferError::InvalidChunk)
    } else {
        Ok(())
    }
}

/// The verdict on finishing the upload with the digest the peer announced.
pub open spec fn finish_verdict(v: FilesView, expected: Option<Seq<char>>) -> Result<Seq<char>, TransferError> {
    if v.upload is None {
        Err(TransferError::NoUpload)
    } else if v.upload->0.offset != v.upload->0.size {
        Err(TransferError::Incomplete)
    } else if expected != Some(hex_lower_spec(sha256_digest(v.upload->0.data))) {
        Err(TransferError::DigestMismatch)
    } else {
        Ok(hex_lower_spec(sha256_digest(v.upload->0.data)))
    }
}

impl Transfers {
    pub closed spec fn wf(self) -> bool {
        files_ok(self@)
    }

    /// A session with nothing in progress and nothing reserved.
    pub fn new() -> (t: Self)
        ensures
            t.wf(),
            t@.upload is None,
            t@.download is None,
            t@.reserved == 0,
    {
        Transfers { upload: None, download: None, reserved: 0 }
    }

    /// Abandons any transfer in progress; reserved bytes stay reserved.
    pub fn cancel(&mut self)
        requires
            old(self).wf(),
        ensures
            final(self).wf(),
            final(self)@ == (FilesView { upload: None, download: None, ..old(self)@ }),
    {
        self.upload = None;
        self.download = None;
    }

    /// Whether an upload of the announced size may begin; nothing changes yet.
    pub fn check_upload(&self, size: Option<u64>) -> (r: Result<u64, TransferError>)
        requires
            self.wf(),
        ensures
            r == upload_verdict(self@, size),
    {
        if self.upload.is_some() || self.download.is_some() {
            return Err(TransferError::Busy);
        }
        match size {
            None => Err(TransferError::MissingSize),
            Some(n) => {
                if n > MAX || self.reserved + n > BUDGET {
                    Err(TransferError::QuotaExceeded)
                } else {
                    Ok(n)
                }
            },
        }
    }

    /// Begins an accepted upload and reserves its size.
    pub fn begin_upload(&mut self, size: u64)
        requires
            old(self).wf(),
            upload_verdict(old(self)@, Some(size)) is Ok,
        ensures
            final(self).wf(),
            final(self)@ == (FilesView {
                upload: Some(TransferView { size: size as nat, offset: 0, data: Seq::empty() }),
                download: None,
                reserved: old(self)@.reserved + size as nat,
            }),
    {
        self.reserved = self.reserved + size;
        self.upload = Some(Transfer { size, offset: 0, hash: sha256_new() });
    }

    /// Accepts the next upload chunk, given as base64, at exactly the current offset;
    /// returns the decoded bytes to store and the new offset.
    pub fn accept_chunk(&mut self, offset: u64, data: &str) -> (r: Result<(Vec<u8>, u64), TransferError>)
        requires
            old(self).wf(),
        ensures
            final(self).wf(),
            r is Ok <==> chunk_verdict(old(self)@, offset, base64_decoding(data@)) is Ok,
            r is Err ==> r == Err::<(Vec<u8>, u64), TransferError>(chunk_verdict(old(self)@, offset, base64_decoding(data@))->Err_0)
                && final(self)@ == old(self)@,
            r matches Ok((bytes, new_offset)) ==> {
                &&& bytes@ == base64_decoding(data@)->0
                &&& new_offset == offset + bytes@.len()
                &&& final(self)@ == (FilesView {
                    upload: Some(TransferView {
                        offset: new_offset as nat,
                        data: old(self)@.upload->0.data + bytes@,
                        ..old(self)@.upload->0
                    }),
                    ..old(self)@
                })
            },
    {
        let size = match &self.upload {
            None => {
                return Err(TransferError::NoUpload);
            },
            Some(t) => {
                if offset != t.offset {
                    return Err(TransferError::OffsetMismatch);
                }
                t.size
            },
        };
        let bytes = match base64_decode(data) {
            None => {
                return Err(TransferError::BadEncoding);
            },
            Some(b) => b,
        };
        if bytes.len() == 0 || bytes.len() > CHUNK || bytes.len() as u64 > size - offset {
            return Err(TransferError::InvalidChunk);
        }
        let mut t = self.upload.take().unwrap();
        sha256_update(&mut t.hash, bytes.as_slice());
        t.offset = t.offset + bytes.len() as u64;
        let new_offset = t.offset;
        self.upload = Some(t);
        Ok((bytes, new_offset))
    }

    /// Ends the upload. It is published only when every announced byte arrived and the
    /// announced digest equals the SHA-256 of the received bytes; returns that digest in
    /// lower-case hex and the size. The upload ends whatever the outcome.
    pub fn finish(&mut self, expected: Option<&str>) -> (r: Result<(String, u64), TransferError>)
        requires
            old(self).wf(),
        ensures
            final(self).wf(),
            final(self)@ == (FilesView { upload: None, ..old(self)@ }),
            r is Ok <==> finish_verdict(old(self)@, match expected { Some(e) => Some(e@), None => None }) is Ok,
            r is Err ==> r == Err::<(String, u64), TransferError>(finish_verdict(old(self)@, match expected { Some(e) => Some(e@), None => None })->Err_0),
            r matches Ok((digest, size)) ==> digest@ == finish_verdict(old(self)@, match expected { Some(e) => Some(e@), None => None })->Ok_0
                && size == old(self)@.upload->0.size,
    {
        let t = match self.upload.take() {
            None => {
                return Err(TransferError::NoUpload);
            },
            Some(t) => t,
        };
        if t.offset != t.size {
            return Err(TransferError::Incomplete);
        }
        let digest = sha256_finish(&t.hash);
        let hex = hex_lower(digest.as_slice());
        match expected {
            Some(e) => {
                if text_eq(e, hex.as_str()) {
                    Ok((hex, t.size))
                } else {
                    Err(TransferError::DigestMismatch)
                }
            },
            None => Err(TransferError::DigestMismatch),
        }
    }

    /// Whether a download may begin; nothing changes yet.
    pub fn check_download(&self) -> (r: Result<(), TransferError>)
        ensures
            r is Ok <==> (self@.upload is None && self@.download is None),
            r is Err ==> r == Err::<(), TransferError>(TransferError::Busy),
    {
        if self.upload.is_some() || self.download.is_some() {
            Err(TransferError::Busy)
        } else {
            Ok(())
        }
    }

    /// Begins a download of a regular file of `size` bytes if it fits, reserving its size.
    pub fn begin_download(&mut self, is_file: bool, size: u64) -> (r: Result<(), TransferError>)
        requires
            old(self).wf(),
            old(self)@.upload is None,
            old(self)@.download is None,
        ensures
            final(self).wf(),
            r is Ok <==> is_file && fits(old(self)@, size as nat),
            r is Err ==> r == Err::<(), TransferError>(TransferError::Unavailable) && final(self)@ == old(self)@,
            r is Ok ==> final(self)@ == (FilesView {
                upload: None,
                download: Some(TransferView { size: size as nat, offset: 0, data: Seq::empty() }),
                reserved: old(self)@.reserved + size as nat,
            }),
    {
        if !is_file || size > MAX || self.reserved + size > BUDGET {
            return Err(TransferError::Unavailable);
        }
        self.reserved = self.reserved + size;
        self.download = Some(Transfer { size, offset: 0, hash: sha256_new() });
        Ok(())
    }

    /// Answers a `next` request at `offset`: at the end the download completes with the
    /// digest of every byte sent, otherwise at most one chunk is to be read.
    pub fn next_step(&mut self, offset: u64) -> (r: Result<NextStep, TransferError>)
        requires
            old(self).wf(),
        ensures
            final(self).wf(),
            old(self)@.download is None ==> r == Err::<NextStep, TransferError>(TransferError::NoDownload)
                && final(self)@ == old(self)@,
            old(self)@.download is Some && offset != old(self)@.download->0.offset ==> r == Err::<
                NextStep,
                TransferError,
            >(TransferError::OffsetMismatch) && final(self)@ == old(self)@,
            old(self)@.download is Some && offset == old(self)@.download->0.offset && offset
                == old(self)@.download->0.size ==> (r matches Ok(NextStep::Complete { sha256, size })
                && sha256@ == hex_lower_spec(sha256_digest(old(self)@.download->0.data)) && size
                == old(self)@.download->0.size && final(self)@ == (FilesView {
                download: None,
                ..old(self)@
            })),
            old(self)@.download is Some && offset == old(self)@.download->0.offset && offset
                < old(self)@.download->0.size ==> (r == Ok::<NextStep, TransferError>(
                NextStep::Read(
                    if old(self)@.download->0.size - offset < CHUNK {
                        (old(self)@.download->0.size - offset) as usize
                    } else {
                        CHUNK
                    },
                ),
            ) && final(self)@ == old(self)@),
    {
        match &self.download {
            None => Err(TransferError::NoDownload),
            Some(d) => {
                if offset != d.offset {
                    return Err(TransferError::OffsetMismatch);
                }
                if offset == d.size {
                    let digest = sha256_finish(&d.hash);
                    let sha256 = hex_lower(digest.as_slice());
                    let size = d.size;
                    self.download = None;
                    return Ok(NextStep::Complete { sha256, size });
                }
                let remaining = d.size - offset;
                Ok(NextStep::Read(if remaining < CHUNK as u64 { remaining as usize } else { CHUNK }))
            },
        }
    }

    /// Records the bytes read for the pending `next` and returns their offset and base64 form.
    pub fn sent(&mut self, data: &[u8]) -> (r: (u64, String))
        requires
            old(self).wf(),
            old(self)@.download is Some,
            data@.len() > 0,
            old(self)@.download->0.offset + data@.len() <= old(self)@.download->0.size,
        ensures
            final(self).wf(),
            r.0 == old(self)@.download->0.offset,
            r.1@ == base64_encoding(data@),
            final(self)@ == (FilesView {
                download: Some(TransferView {
                    offset: old(self)@.download->0.offset + data@.len(),
                    data: old(self)@.download->0.data + data@,
                    ..old(self)@.download->0
                }),
                ..old(self)@
            }),
    {
        let mut d = self.download.take().unwrap();
        let at = d.offset;
        sha256_update(&mut d.hash, data);
        d.offset = d.offset + data.len() as u64;
        self.download = Some(d);
        (at, base64_encode(data))
    }
}

/// A directory entry as read from the shared folder.
pub struct DirEntry {
    pub name: String,
    pub is_file: bool,
    pub size: u64,
}

/// A listed file.
#[derive(PartialEq, Eq, Debug)]
pub struct Listed {
    pub name: String,
    pub size: u64,
}

/// The abstract form of a directory entry.
pub open spec fn entry_view(e: DirEntry) -> (Seq<char>, bool, u64) {
    (e.name@, e.is_file, e.size)
}

/// The abstract form of a listed file.
pub open spec fn listed_view(l: Listed) -> (Seq<char>, u64) {
    (l.name@, l.size)
}

/// Entries shown in a listing: regular files of at most 100 MiB with an acceptable name.
pub open spec fn listable(e: (Seq<char>, bool, u64)) -> bool {
    name_verdict(e.0, utf8_len(e.0) as nat) is Ok && e.1 && e.2 <= MAX
}

/// The first `cap` listable entries of `s`, in order.
pub open spec fn select_listable(s: Seq<(Seq<char>, bool, u64)>, cap: nat) -> Seq<(Seq<char>, u64)>
    decreases s.len(),
{
    if s.len() == 0 || cap == 0 {
        Seq::empty()
    } else if listable(s[0]) {
        seq![(s[0].0, s[0].2)] + select_listable(s.drop_first(), (cap - 1) as nat)
    } else {
        select_listable(s.drop_first(), cap)
    }
}

/// Lexicographic order of names by character (for UTF-8 text the same as byte order).
pub open spec fn name_le(a: Seq<char>, b: Seq<char>) -> bool
    decreases a.len(),
{
    if a.len() == 0 {
        true
    } else if b.len() == 0 {
        false
    } else if a[0] != b[0] {
        a[0] < b[0]
    } else {
        name_le(a.drop_first(), b.drop_first())
    }
}

/// Files listed in name order.
pub open spec fn sorted_by_name(s: Seq<(Seq<char>, u64)>) -> bool {
    forall|i: int, j: int| 0 <= i < j < s.len() ==> name_le(#[trigger] s[i].0, #[trigger] s[j].0)
}

proof fn lemma_name_total(a: Seq<char>, b: Seq<char>)
    ensures
        name_le(a, b) || name_le(b, a),
    decreases a.len(),
{
    if a.len() > 0 && b.len() > 0 && a[0] == b[0] {
        lemma_name_total(a.drop_first(), b.drop_first());
    }
}

proof fn lemma_name_trans(a: Seq<char>, b: Seq<char>, c: Seq<char>)
    requires
        name_le(a, b),
        name_le(b, c),
    ensures
        name_le(a, c),
    decreases a.len(),
{
    if a.len() > 0 && b.len() > 0 && c.len() > 0 && a[0] == b[0] && b[0] == c[0] {
        lemma_name_trans(a.drop_first(), b.drop_first(), c.drop_first());
    }
}

fn name_le_exec(a: &Vec<char>, b: &Vec<char>) -> (r: bool)
    ensures
        r == name_le(a@, b@),
{
    let mut i: usize = 0;
    proof {
        assert(a@.skip(0) =~= a@);
        assert(b@.skip(0) =~= b@);
    }
    while i < a.len() && i < b.len() && a[i] == b[i]
        invariant
            i <= a@.len(),
            i <= b@.len(),
            name_le(a@, b@) == name_le(a@.skip(i as int), b@.skip(i as int)),
        decreases a@.len() - i,
    {
        proof {
            assert(a@.skip(i as int).drop_first() =~= a@.skip(i + 1));
            assert(b@.skip(i as int).drop_first() =~= b@.skip(i + 1));
        }
        i = i + 1;
    }
    if i == a.len() {
        true
    } else if i == b.len() {
        false
    } else {
        a[i] < b[i]
    }
}

proof fn lemma_insert_multiset<A>(s: Seq<A>, j: int, e: A)
    requires
        0 <= j <= s.len(),
    ensures
        s.insert(j, e).to_multiset() =~= s.to_multiset().insert(e),
{
    broadcast use vstd::seq_lib::group_to_multiset_ensures;
    let a = s.take(j);
    let b = s.skip(j);
    assert(s.insert(j, e) =~= a.push(e) + b);
    assert(s =~= a + b);
    vstd::seq_lib::lemma_multiset_commutative(a.push(e), b);
    vstd::seq_lib::lemma_multiset_commutative(a, b);
}

/// The listing of the shared folder: the first 200 listable entries, in name order.
pub fn list(entries: &Vec<DirEntry>) -> (r: Vec<Listed>)
    ensures
        r@.map_values(|l: Listed| listed_view(l)).to_multiset() == select_listable(
            entries@.map_values(|e: DirEntry| entry_view(e)),
            MAX_LISTED as nat,
        ).to_multiset(),
        sorted_by_name(r@.map_values(|l: Listed| listed_view(l))),
{
    let ghost all = entries@.map_values(|e: DirEntry| entry_view(e));
    let mut chosen: Vec<Listed> = Vec::new();
    let mut i: usize = 0;
    proof {
        assert(all.skip(0) =~= all);
        assert(chosen@.map_values(|l: Listed| listed_view(l)) =~= Seq::<(Seq<char>, u64)>::empty());
    }
    while i < entries.len() && chosen.len() < MAX_LISTED
        invariant
            i <= entries@.len(),
            all == entries@.map_values(|e: DirEntry| entry_view(e)),
            chosen@.len() <= MAX_LISTED,
            chosen@.map_values(|l: Listed| listed_view(l)) + select_listable(all.skip(i as int), (MAX_LISTED - chosen@.len()) as nat)
                == select_listable(all, MAX_LISTED as nat),
        decreases entries@.len() - i,
    {
        let e = &entries[i];
        let ok = match name(e.name.as_str()) {
            Ok(_) => true,
            Err(_) => false,
        };
        proof {
            assert(all.skip(i as int).drop_first() =~= all.skip(i + 1));
            assert(all.skip(i as int)[0] == entry_view(entries@[i as int]));
        }
        let ghost before = chosen@.map_values(|l: Listed| listed_view(l));
        if ok && e.is_file && e.size <= MAX {
            chosen.push(Listed { name: e.name.clone(), size: e.size });
            proof {
                assert(chosen@.map_values(|l: Listed| listed_view(l)) =~= before.push((entries@[i as int].name@, entries@[i as int].size)));
                assert(before.push((entries@[i as int].name@, entries@[i as int].size)) + select_listable(all.skip(i + 1), (MAX_LISTED - chosen@.len()) as nat)
                    =~= before + select_listable(all.skip(i as int), (MAX_LISTED - before.len()) as nat));
            }
        }
        i = i + 1;
    }
    proof {
        if i == entries.len() {
            assert(all.skip(i as int).len() == 0);
        }
        assert(chosen@.map_values(|l: Listed| listed_view(l)) =~= select_listable(all, MAX_LISTED as nat));
    }
    let ghost target = chosen@.map_values(|l: Listed| listed_view(l));
    let mut out: Vec<Listed> = Vec::new();
    let mut k: usize = 0;
    let n = chosen.len();
    proof {
        assert(target.take(0) =~= Seq::<(Seq<char>, u64)>::empty());
        assert(out@.map_values(|l: Listed| listed_view(l)) =~= Seq::<(Seq<char>, u64)>::empty());
    }
    while k < n
        invariant
            k <= n,
            n == chosen@.len(),
            target == chosen@.map_values(|l: Listed| listed_view(l)),
            out@.map_values(|l: Listed| listed_view(l)).to_multiset() == target.take(k as int).to_multiset(),
            sorted_by_name(out@.map_values(|l: Listed| listed_view(l))),
        decreases n - k,
    {
        let item = Listed { name: chosen[k].name.clone(), size: chosen[k].size };
        let key = chars_of(item.name.as_str());
        let ghost ov = out@.map_values(|l: Listed| listed_view(l));
        let mut j: usize = 0;
        while j < out.len() && name_le_exec(&chars_of(out[j].name.as_str()), &key)
            invariant
                j <= out@.len(),
                key@ == item.name@,
                ov == out@.map_values(|l: Listed| listed_view(l)),
                forall|x: int| 0 <= x < j ==> name_le(#[trigger] ov[x].0, key@),
            decreases out@.len() - j,
        {
            j = j + 1;
        }
        proof {
            assert(listed_view(item) == target[k as int]);
        }
        out.insert(j, item);
        proof {
            let nv = out@.map_values(|l: Listed| listed_view(l));
            assert(nv =~= ov.insert(j as int, (key@, item.size)));
            lemma_insert_multiset(ov, j as int, (key@, item.size));
            assert(target.take(k + 1) =~= target.take(k as int).push(target[k as int]));
            broadcast use vstd::seq_lib::group_to_multiset_ensures;
            assert forall|p: int, q: int| 0 <= p < q < nv.len() implies name_le(#[trigger] nv[p].0, #[trigger] nv[q].0) by {
                if q < j {
                    assert(nv[p] == ov[p] && nv[q] == ov[q]);
                } else if q == j {
                    assert(nv[p] == ov[p]);
                } else if p == j {
                    assert(nv[q] == ov[q - 1]);
                    assert(!name_le(ov[j as int].0, key@));
                    lemma_name_total(ov[j as int].0, key@);
                    if j < q - 1 {
                        lemma_name_trans(key@, ov[j as int].0, ov[q - 1].0);
                    }
                } else if p < j {
                    assert(nv[p] == ov[p] && nv[q] == ov[q - 1]);
                } else {
                    assert(nv[p] == ov[p - 1] && nv[q] == ov[q - 1]);
                }
            }
        }
        k = k + 1;
    }
    proof {
        assert(target.take(n as int) =~= target);
    }
    out
}

/// Largest message accepted on the file channel, in bytes.
pub const MAX_REQUEST_BYTES: usize = 20000;

/// File-channel messages are queued only when they are text of at most 20,000 bytes;
/// anything else ends the file session.
pub fn request_accepted(is_string: bool, len: usize) -> (r: bool)
    ensures
        r == (is_string && len <= MAX_REQUEST_BYTES),
{
    is_string && len <= MAX_REQUEST_BYTES
}

/// The requests of the file channel.
#[derive(Clone, Copy, PartialEq, Eq, Structural, Debug)]
pub enum FileRequest {
    List,
    Cancel,
    Upload,
    Chunk,
    Finish,
    Download,
    Next,
    Unknown,
}

/// The request a message `type` names.
pub open spec fn file_request_of(kind: Seq<char>) -> FileRequest {
    if kind == "list"@ {
        FileRequest::List
    } else if kind == "cancel"@ {
        FileRequest::Cancel
    } else if kind == "upload"@ {
        FileRequest::Upload
    } else if kind == "chunk"@ {
        FileRequest::Chunk
    } else if kind == "finish"@ {
        FileRequest::Finish
    } else if kind == "download"@ {
        FileRequest::Download
    } else if kind == "next"@ {
        FileRequest::Next
    } else {
        FileRequest::Unknown
    }
}

/// Each file-channel `type` names its own request.
pub proof fn law_file_requests_keep_their_meaning()
    ensures
        file_request_of("list"@) == FileRequest::List,
        file_request_of("cancel"@) == FileRequest::Cancel,
        file_request_of("upload"@) == FileRequest::Upload,
        file_request_of("chunk"@) == FileRequest::Chunk,
        file_request_of("finish"@) == FileRequest::Finish,
        file_request_of("download"@) == FileRequest::Download,
        file_request_of("next"@) == FileRequest::Next,
{
    reveal_strlit("list");
    reveal_strlit("cancel");
    reveal_strlit("upload");
    reveal_strlit("chunk");
    reveal_strlit("finish");
    reveal_strlit("download");
    reveal_strlit("next");
    assert("list"@.len() == 4);
    assert("list"@[0] == 'l');
    assert("list"@[1] == 'i');
    assert("list"@[2] == 's');
    assert("list"@[3] == 't');
    assert("cancel"@.len() == 6);
    assert("cancel"@[0] == 'c');
    assert("cancel"@[1] == 'a');
    assert("cancel"@[2] == 'n');
    assert("cancel"@[3] == 'c');
    assert("cancel"@[4] == 'e');
    assert("cancel"@[5] == 'l');
    assert("upload"@.len() == 6);
    assert("upload"@[0] == 'u');
    assert("upload"@[1] == 'p');
    assert("upload"@[2] == 'l');
    assert("upload"@[3] == 'o');
    assert("upload"@[4] == 'a');
    assert("upload"@[5] == 'd');
    assert("chunk"@.len() == 5);
    assert("chunk"@[0] == 'c');
    assert("chunk"@[1] == 'h');
    assert("chunk"@[2] == 'u');
    assert("chunk"@[3] == 'n');
    assert("chunk"@[4] == 'k');
    assert("finish"@.len() == 6);
    assert("finish"@[0] == 'f');
    assert("finish"@[1] == 'i');
    assert("finish"@[2] == 'n');
    assert("finish"@[3] == 'i');
    assert("finish"@[4] == 's');
    assert("finish"@[5] == 'h');
    assert("download"@.len() == 8);
    assert("download"@[0] == 'd');
    assert("download"@[1] == 'o');
    assert("download"@[2] == 'w');
    assert("download"@[3] == 'n');
    assert("download"@[4] == 'l');
    assert("download"@[5] == 'o');
    assert("download"@[6] == 'a');
    assert("download"@[7] == 'd');
    assert("next"@.len() == 4);
    assert("next"@[0] == 'n');
    assert("next"@[1] == 'e');
    assert("next"@[2] == 'x');
    assert("next"@[3] == 't');
}

/// Classifies a file-channel message by its `type`; an unknown request is refused.
pub fn file_request(kind: &str) -> (r: FileRequest)
    ensures
        r == file_request_of(kind@),
{
    if text_eq(kind, "list") {
        FileRequest::List
    } else if text_eq(kind, "cancel") {
        FileRequest::Cancel
    } else if text_eq(kind, "upload") {
        FileRequest::Upload
    } else if text_eq(kind, "chunk") {
        FileRequest::Chunk
    } else if text_eq(kind, "finish") {
        FileRequest::Finish
    } else if text_eq(kind, "download") {
        FileRequest::Download
    } else if text_eq(kind, "next") {
        FileRequest::Next
    } else {
        FileRequest::Unknown
    }
}

/// The request identifier echoed in a reply: kept when at most 64 bytes, empty otherwise.
pub fn response_id(id: Option<&str>) -> (r: String)
    ensures
        id is Some && id->0.len() <= 64 ==> r@ == id->0@,
        !(id is Some && id->0.len() <= 64) ==> r@ == Seq::<char>::empty(),
{
    match id {
        Some(x) => {
            if x.len() <= 64 {
                x.to_owned()
            } else {
                String::new()
            }
        },
        None => String::new(),
    }
}

/// Whatever sequence of requests a session serves, at most one transfer is in progress
/// and at most 500 MiB is ever reserved.
pub proof fn law_one_bounded_transfer(t: Transfers)
    requires
        t.wf(),
    ensures
        !(t@.upload is Some && t@.download is Some),
        t@.reserved <= BUDGET,
{
}

/// A file is published only when its bytes hash to the digest the sender announced.
pub proof fn law_upload_published_only_if_verified(v: FilesView, expected: Option<Seq<char>>)
    requires
        finish_verdict(v, expected) is Ok,
    ensures
        v.upload matches Some(u) && u.offset == u.size && expected == Some(
            hex_lower_spec(sha256_digest(u.data)),
        ),
{
}

} // verus!
