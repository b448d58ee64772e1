use md5::{Digest, Md5};
use md5sum::digest::{compute_md5, format_line, DigestEngine, CHUNK_SIZE, DIGEST_TEXT_LEN};
use md5sum::hex::to_hex;

fn reference_digest(data: &[u8]) -> String {
    format!("{:x}", Md5::digest(data))
}

fn patterned(len: usize) -> Vec<u8> {
    let mut data: Vec<u8> = Vec::with_capacity(len);
    let mut i: usize = 0;
    while i < len {
        data.push(((i * 31 + 7) % 251) as u8);
        i += 1;
    }
    data
}

#[test]
fn test_compute_md5() {
    let content = b"Hello, World!";
    let md5sum = compute_md5(content);
    assert_eq!(md5sum, "65a8e27d8879283831b664bd8b7f0ad4");
}

#[test]
fn empty_stream_has_the_digest_of_the_empty_string() {
    assert_eq!(compute_md5(b""), "d41d8cd98f00b204e9800998ecf8427e");
}

#[test]
fn known_vectors() {
    assert_eq!(compute_md5(b"a"), "0cc175b9c0f1b6a831c399e269772661");
    assert_eq!(compute_md5(b"abc"), "900150983cd24fb0d6963f7d28e17f72");
    assert_eq!(compute_md5(b"message digest"), "f96b697d7cb7938d525a2f31aaf161d0");
    assert_eq!(
        compute_md5(b"The quick brown fox jumps over the lazy dog"),
        "9e107d9d372bb6826bd81d3542a419d6"
    );
}

#[test]
fn repeated_calls_agree() {
    let data = patterned(5000);
    let first = compute_md5(&data);
    let second = compute_md5(&data);
    assert_eq!(first, second);
    let copy = data.clone();
    assert_eq!(compute_md5(&copy), first);
}

#[test]
fn different_inputs_differ() {
    assert_ne!(compute_md5(b"Test content"), compute_md5(b"Test content!"));
}

#[test]
fn digest_is_thirty_two_lowercase_hex_characters() {
    let lengths: [usize; 8] = [0, 1, 55, 56, 64, 1024, 1025, 4096];
    for len in lengths {
        let text = compute_md5(&patterned(len));
        assert_eq!(text.len(), 32);
        assert_eq!(text.len(), DIGEST_TEXT_LEN);
        assert!(text.chars().all(|c| matches!(c, '0'..='9' | 'a'..='f')));
    }
}

#[test]
fn chunk_boundaries_match_the_one_shot_digest() {
    assert_eq!(CHUNK_SIZE, 1024);
    let lengths: [usize; 10] = [0, 1, 63, 64, 1023, 1024, 1025, 2047, 2048, 3000];
    for len in lengths {
        let data = patterned(len);
        assert_eq!(compute_md5(&data), reference_digest(&data));
    }
}

#[test]
fn engine_fed_in_pieces_gives_the_digest_of_the_whole() {
    let data = patterned(2500);
    let mut engine = DigestEngine::new();
    assert!(engine.absorb(&data[..1]));
    assert!(engine.absorb(&data[1..1024]));
    assert!(engine.absorb(&data[1024..2048]));
    assert!(engine.absorb(&data[2048..]));
    assert!(!engine.absorb(&data[2500..]));
    assert_eq!(engine.finish(), compute_md5(&data));
}

#[test]
fn engine_without_input_gives_the_empty_digest() {
    let engine = DigestEngine::new();
    assert_eq!(engine.finish(), "d41d8cd98f00b204e9800998ecf8427e");
}

#[test]
fn empty_chunk_ends_the_stream_and_changes_nothing() {
    let mut engine = DigestEngine::new();
    assert!(engine.absorb(b"Hello, "));
    assert!(!engine.absorb(b""));
    assert!(engine.absorb(b"World!"));
    assert_eq!(engine.finish(), "65a8e27d8879283831b664bd8b7f0ad4");
}

#[test]
fn hex_rendering() {
    assert_eq!(to_hex(&[]), "");
    assert_eq!(to_hex(&[10, 20, 30]), "0a141e");
    assert_eq!(to_hex(&[0x00, 0xff, 0x9a, 0xf0, 0x0f]), "00ff9af00f");
    let all: Vec<u8> = (0..=255).collect();
    let expected: String = all.iter().map(|b| format!("{:02x}", b)).collect();
    assert_eq!(to_hex(&all), expected);
}

#[test]
fn checksum_line_in_text_mode() {
    let line = format_line("65a8e27d8879283831b664bd8b7f0ad4", "hello.txt", false);
    assert_eq!(line, "65a8e27d8879283831b664bd8b7f0ad4 hello.txt");
}

#[test]
fn checksum_line_in_binary_mode() {
    let line = format_line("65a8e27d8879283831b664bd8b7f0ad4", "hello.txt", true);
    assert_eq!(line, "65a8e27d8879283831b664bd8b7f0ad4*hello.txt");
}

#[test]
fn checksum_line_of_empty_parts() {
    assert_eq!(format_line("", "", false), " ");
    assert_eq!(format_line("", "", true), "*");
}
