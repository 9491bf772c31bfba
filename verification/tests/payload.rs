//! Sealing and opening whole payloads.

use eck::errors::EnkryptitError;
use eck::encryption::{decrypt_chunk, encrypt_chunk};
use eck::payload::{chunk_range, open_payload, seal_payload, sealed_piece_range, SEALED_CHUNK_SIZE};
use eck::types::CHUNK_SIZE;

const KEY: [u8; 32] = [7; 32];
const NONCE: [u8; 24] = [3; 24];

#[test]
fn small_payload_roundtrip() {
    let data = b"payload of a single chunk".to_vec();
    let sealed = seal_payload(&data, &NONCE, &KEY);
    assert_eq!(sealed.len(), data.len() + 16);
    assert_ne!(&sealed[..data.len()], &data[..]);
    assert_eq!(open_payload(&sealed, &KEY, &NONCE), Ok(data));
}

#[test]
fn empty_payload_roundtrip() {
    let sealed = seal_payload(&[], &NONCE, &KEY);
    assert!(sealed.is_empty());
    assert_eq!(open_payload(&sealed, &KEY, &NONCE), Ok(Vec::new()));
}

#[test]
fn payload_over_one_chunk_roundtrip() {
    let data: Vec<u8> = (0..CHUNK_SIZE + 5).map(|i| (i % 251) as u8).collect();
    let sealed = seal_payload(&data, &NONCE, &KEY);
    assert_eq!(sealed.len(), SEALED_CHUNK_SIZE + 5 + 16);
    assert_eq!(open_payload(&sealed, &KEY, &NONCE), Ok(data));
}

#[test]
fn payload_of_exactly_one_chunk() {
    let data = vec![0x42u8; CHUNK_SIZE];
    let sealed = seal_payload(&data, &NONCE, &KEY);
    assert_eq!(sealed.len(), SEALED_CHUNK_SIZE);
    assert_eq!(open_payload(&sealed, &KEY, &NONCE), Ok(data));
}

#[test]
fn tampered_payload_is_refused() {
    let data = b"integrity protected content".to_vec();
    let mut sealed = seal_payload(&data, &NONCE, &KEY);
    let last = sealed.len() - 2;
    sealed[last] ^= 0xFF;
    assert_eq!(open_payload(&sealed, &KEY, &NONCE), Err(EnkryptitError::Decryption));
}

#[test]
fn wrong_key_or_nonce_is_refused() {
    let data = b"secret".to_vec();
    let sealed = seal_payload(&data, &NONCE, &KEY);
    assert_eq!(open_payload(&sealed, &[8; 32], &NONCE), Err(EnkryptitError::Decryption));
    assert_eq!(open_payload(&sealed, &KEY, &[4; 24]), Err(EnkryptitError::Decryption));
}

#[test]
fn truncated_payload_is_refused() {
    let data = b"some content".to_vec();
    let sealed = seal_payload(&data, &NONCE, &KEY);
    assert_eq!(open_payload(&sealed[..10], &KEY, &NONCE), Err(EnkryptitError::Decryption));
}

#[test]
fn chunk_ranges() {
    assert_eq!(chunk_range(0, 0), None);
    assert_eq!(chunk_range(10, 0), Some((0, 10)));
    assert_eq!(chunk_range(10, 1), None);
    assert_eq!(chunk_range(CHUNK_SIZE, 0), Some((0, CHUNK_SIZE)));
    assert_eq!(chunk_range(CHUNK_SIZE, 1), None);
    assert_eq!(chunk_range(CHUNK_SIZE + 5, 1), Some((CHUNK_SIZE, CHUNK_SIZE + 5)));
    assert_eq!(chunk_range(CHUNK_SIZE + 5, usize::MAX), None);
    assert_eq!(sealed_piece_range(SEALED_CHUNK_SIZE + 21, 1), Some((SEALED_CHUNK_SIZE, SEALED_CHUNK_SIZE + 21)));
    assert_eq!(sealed_piece_range(SEALED_CHUNK_SIZE, 1), None);
}

#[test]
fn chunk_by_chunk_matches_whole_payload() {
    let data: Vec<u8> = (0..CHUNK_SIZE + 5).map(|i| (i % 13) as u8).collect();
    let whole = seal_payload(&data, &NONCE, &KEY);
    let mut sealed = Vec::new();
    let mut k = 0;
    while let Some((start, end)) = chunk_range(data.len(), k) {
        let mut chunk = data[start..end].to_vec();
        encrypt_chunk(&mut chunk, &NONCE, &KEY, k as u64).unwrap();
        sealed.extend_from_slice(&chunk);
        k += 1;
    }
    assert_eq!(k, 2);
    assert_eq!(sealed, whole);
    let mut opened = Vec::new();
    let mut k = 0;
    while let Some((start, end)) = sealed_piece_range(sealed.len(), k) {
        let mut piece = sealed[start..end].to_vec();
        decrypt_chunk(&mut piece, &KEY, &NONCE, k as u64).unwrap();
        opened.extend_from_slice(&piece);
        k += 1;
    }
    assert_eq!(opened, data);
}
