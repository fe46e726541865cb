use base64::Engine;
use remvora_agent::relay::{accept_input, parts, RelayError, RelayTarget, MAX_PART_TEXT};

fn decode(s: &str) -> Vec<u8> {
    base64::engine::general_purpose::STANDARD.decode(s).unwrap()
}

#[test]
fn media_chunks_are_bounded_and_reassemble() {
    let source = vec![42u8; 100000];
    let frames = parts(&source).unwrap();
    let mut output = Vec::new();
    for (part, f) in frames.iter().enumerate() {
        assert_eq!(f.part, part);
        assert!(f.data.len() <= 44000);
        output.extend(decode(&f.data));
    }
    assert_eq!(source, output);
    assert_eq!(frames.iter().filter(|f| f.last).count(), 1);
    assert!(frames.last().unwrap().last);
}

#[test]
fn relay_payload_limits() {
    assert!(parts(&[]).unwrap().is_empty());
    assert_eq!(parts(&vec![0u8; 2 * 1024 * 1024]).unwrap().len(), 64);
    assert_eq!(parts(&vec![0u8; 2 * 1024 * 1024 + 1]), Err(RelayError::TooLarge));
    let exact = parts(&vec![1u8; 32768]).unwrap();
    assert_eq!(exact.len(), 1);
    assert!(exact[0].last);
}

#[test]
fn relayed_input_is_small_unfragmented_and_routed() {
    assert_eq!(accept_input(true, true, Some("aGk="), Some("input"), false), Ok((RelayTarget::Input, b"hi".to_vec())));
    assert_eq!(accept_input(true, true, Some("e30="), Some("files"), false), Err(RelayError::FilesDenied));
    assert_eq!(accept_input(true, true, Some("e30="), Some("files"), true), Ok((RelayTarget::Files, b"{}".to_vec())));
    assert_eq!(accept_input(false, true, Some("aGk="), Some("input"), false), Err(RelayError::Fragmented));
    assert_eq!(accept_input(true, false, Some("aGk="), Some("input"), false), Err(RelayError::Fragmented));
    assert_eq!(accept_input(true, true, None, Some("input"), false), Err(RelayError::MissingData));
    assert_eq!(accept_input(true, true, Some(&"A".repeat(28004)), Some("input"), false), Err(RelayError::InputTooLarge));
    assert_eq!(accept_input(true, true, Some("%%"), Some("input"), false), Err(RelayError::BadEncoding));
    assert_eq!(accept_input(true, true, Some("aGk="), Some("video"), false), Err(RelayError::UnknownChannel));
}

#[test]
fn relayed_parts_have_bounded_base64_text() {
    let source = vec![42u8; 100000];
    let p = parts(&source).unwrap();
    assert_eq!(p.len(), 4);
    for (i, part) in p.iter().enumerate() {
        let n = if i < 3 { 32768 } else { 100000 - 3 * 32768 };
        assert_eq!(part.data.len(), 4 * ((n + 2) / 3));
        assert!(part.data.len() <= MAX_PART_TEXT);
    }
}
