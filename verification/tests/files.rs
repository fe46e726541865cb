use base64::Engine;
use remvora_agent::files::{
    file_request, list, name, request_accepted, response_id, DirEntry, FileRequest, Listed, NameError, NextStep, TransferError, Transfers, BUDGET, MAX,
    MAX_LISTED,
};
use sha2::Digest;

fn hex(bytes: &[u8]) -> String {
    bytes.iter().map(|b| format!("{b:02x}")).collect()
}

#[test]
fn rejects_paths_and_reserved_names() {
    for n in ["../secret", "a/b", "a\\b", ".hidden", "NUL.txt", "a:", "a.", "a\n"] {
        assert!(name(n).is_err(), "{n}");
    }
}

#[test]
fn accepts_plain_names_and_reports_reserved_devices() {
    assert_eq!(name("hello.txt"), Ok("hello.txt"));
    assert_eq!(name("COM10.log"), Ok("COM10.log"));
    assert_eq!(name("notes v2.md"), Ok("notes v2.md"));
    assert_eq!(name("con.tar.gz"), Err(NameError::Reserved));
    assert_eq!(name("Lpt3"), Err(NameError::Reserved));
    assert_eq!(name("a "), Err(NameError::Invalid));
    assert_eq!(name(""), Err(NameError::Invalid));
    assert_eq!(name("a\u{85}b"), Err(NameError::Invalid));
    assert_eq!(name(&"x".repeat(180)), Ok("x".repeat(180).as_str()));
    assert_eq!(name(&"x".repeat(181)), Err(NameError::Invalid));
    assert_eq!(name(&"é".repeat(91)), Err(NameError::Invalid));
}

#[test]
fn transfer_is_verified_bounded_and_no_replace() {
    let mut s = Transfers::new();
    s.check_upload(Some(5)).unwrap();
    s.begin_upload(5);
    assert_eq!(s.accept_chunk(1, "aGVsbG8="), Err(TransferError::OffsetMismatch));
    let (data, offset) = s.accept_chunk(0, "aGVsbG8=").unwrap();
    assert_eq!(data, b"hello");
    assert_eq!(offset, 5);
    let digest = hex(&sha2::Sha256::digest(b"hello"));
    let (sha256, size) = s.finish(Some(&digest)).unwrap();
    assert_eq!(sha256, digest);
    assert_eq!(size, 5);
    s.check_download().unwrap();
    s.begin_download(true, 5).unwrap();
    assert_eq!(s.next_step(0), Ok(NextStep::Read(5)));
    let (at, encoded) = s.sent(b"hello");
    assert_eq!(at, 0);
    assert_eq!(encoded, "aGVsbG8=");
    assert_eq!(
        s.next_step(5),
        Ok(NextStep::Complete { sha256: digest, size: 5 })
    );
    s.check_upload(Some(0)).unwrap();
    s.begin_upload(0);
    assert_eq!(s.finish(Some("bad")), Err(TransferError::DigestMismatch));
    assert_eq!(s.finish(Some("bad")), Err(TransferError::NoUpload));
}

#[test]
fn cancellation_disconnect_and_quota_are_enforced() {
    let mut s = Transfers::new();
    assert_eq!(s.check_upload(Some(MAX + 1)), Err(TransferError::QuotaExceeded));
    for _ in 0..5 {
        s.check_upload(Some(MAX)).unwrap();
        s.begin_upload(MAX);
        assert_eq!(s.check_download(), Err(TransferError::Busy));
        s.cancel();
    }
    assert_eq!(s.check_upload(Some(1)), Err(TransferError::QuotaExceeded));
    assert_eq!(BUDGET, 5 * MAX);
    let mut s = Transfers::new();
    s.check_upload(Some(10)).unwrap();
    s.begin_upload(10);
    assert_eq!(s.accept_chunk(0, "YQ==").unwrap().1, 1);
    assert_eq!(s.finish(None), Err(TransferError::Incomplete));
}

#[test]
fn empty_files_and_publish_races_preserve_existing_content() {
    let mut s = Transfers::new();
    let digest = hex(&sha2::Sha256::digest(b""));
    s.check_upload(Some(0)).unwrap();
    s.begin_upload(0);
    assert_eq!(s.finish(Some(&digest)).unwrap(), (digest.clone(), 0));
    s.begin_download(true, 0).unwrap();
    assert_eq!(
        s.next_step(0),
        Ok(NextStep::Complete { sha256: digest, size: 0 })
    );
}

#[test]
fn chunks_are_bounded_and_encoded() {
    let mut s = Transfers::new();
    s.begin_upload(20_000);
    let big = base64::engine::general_purpose::STANDARD.encode(vec![1u8; 12_289]);
    assert_eq!(s.accept_chunk(0, &big), Err(TransferError::InvalidChunk));
    assert_eq!(s.accept_chunk(0, "!!"), Err(TransferError::BadEncoding));
    assert_eq!(s.accept_chunk(0, ""), Err(TransferError::InvalidChunk));
    let mut t = Transfers::new();
    assert_eq!(t.next_step(0), Err(TransferError::NoDownload));
    assert_eq!(t.begin_download(false, 1), Err(TransferError::Unavailable));
    assert_eq!(t.check_upload(None), Err(TransferError::MissingSize));
    t.begin_download(true, 30_000).unwrap();
    assert_eq!(t.next_step(0), Ok(NextStep::Read(12_288)));
    assert_eq!(t.next_step(1), Err(TransferError::OffsetMismatch));
}

fn entry(name: &str, is_file: bool, size: u64) -> DirEntry {
    DirEntry { name: name.to_owned(), is_file, size }
}

fn listed(name: &str, size: u64) -> Listed {
    Listed { name: name.to_owned(), size }
}

#[test]
fn listing_keeps_plain_files_in_name_order() {
    let entries = vec![
        entry("zeta.txt", true, 3),
        entry("folder", false, 0),
        entry(".hidden", true, 1),
        entry("alpha.txt", true, 7),
        entry("huge.bin", true, MAX + 1),
        entry("NUL.txt", true, 1),
        entry("Beta.md", true, 2),
    ];
    assert_eq!(
        list(&entries),
        vec![listed("Beta.md", 2), listed("alpha.txt", 7), listed("zeta.txt", 3)]
    );
}

#[test]
fn listing_shows_at_most_two_hundred_files() {
    let entries: Vec<DirEntry> = (0..250).rev().map(|i| entry(&format!("f{i:03}"), true, i)).collect();
    let shown = list(&entries);
    assert_eq!(shown.len(), MAX_LISTED);
    assert_eq!(shown[0], listed("f050", 50));
    assert_eq!(shown[199], listed("f249", 249));
}

#[test]
fn reply_identifiers_are_bounded() {
    assert_eq!(response_id(Some("abc")), "abc");
    assert_eq!(response_id(Some(&"x".repeat(64))), "x".repeat(64));
    assert_eq!(response_id(Some(&"x".repeat(65))), "");
    assert_eq!(response_id(None), "");
}

#[test]
fn file_requests_are_named_exactly() {
    assert_eq!(file_request("list"), FileRequest::List);
    assert_eq!(file_request("next"), FileRequest::Next);
    assert_eq!(file_request("upload"), FileRequest::Upload);
    assert_eq!(file_request("delete"), FileRequest::Unknown);
    assert_eq!(file_request("List"), FileRequest::Unknown);
}

#[test]
fn file_requests_are_small_text() {
    assert!(request_accepted(true, 20000));
    assert!(!request_accepted(true, 20001));
    assert!(!request_accepted(false, 2));
}
