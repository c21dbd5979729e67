use base64::Engine;
use winmedia_helper::encoding::{thumbnail_url, MAX_THUMB_BYTES};

const PREFIX: &str = "data:image/png;base64,";

fn decode(payload: &str) -> Vec<u8> {
    base64::engine::general_purpose::STANDARD.decode(payload).unwrap()
}

#[test]
fn url_of_png_signature_bytes() {
    assert_eq!(thumbnail_url(&[0x89, 0x50, 0x4E]), "data:image/png;base64,iVBO");
}

#[test]
fn url_pads_one_and_two_trailing_bytes() {
    assert_eq!(thumbnail_url(&[0x4D]), "data:image/png;base64,TQ==");
    assert_eq!(thumbnail_url(&[0x4D, 0x61]), "data:image/png;base64,TWE=");
    assert_eq!(thumbnail_url(b"Man"), "data:image/png;base64,TWFu");
}

#[test]
fn url_of_empty_stream_is_prefix() {
    assert_eq!(thumbnail_url(&[]), PREFIX);
}

#[test]
fn url_uses_plus_and_slash() {
    assert_eq!(thumbnail_url(&[0xFB, 0xFF]), "data:image/png;base64,+/8=");
}

#[test]
fn url_payload_decodes_to_input() {
    let bytes: Vec<u8> = (0..=255u8).collect();
    let url = thumbnail_url(&bytes);
    assert!(url.starts_with(PREFIX));
    assert_eq!(decode(&url[PREFIX.len()..]), bytes);
}

#[test]
fn url_at_cap_keeps_every_byte() {
    let bytes = vec![7u8; MAX_THUMB_BYTES as usize];
    let url = thumbnail_url(&bytes);
    assert_eq!(decode(&url[PREFIX.len()..]).len(), 1_048_576);
}

#[test]
fn url_truncates_beyond_cap() {
    let mut bytes = vec![1u8; MAX_THUMB_BYTES as usize];
    bytes.extend_from_slice(&[2u8; 10]);
    let url = thumbnail_url(&bytes);
    let decoded = decode(&url[PREFIX.len()..]);
    assert_eq!(decoded.len(), 1_048_576);
    assert!(decoded.iter().all(|b| *b == 1));
}
