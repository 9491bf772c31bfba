//! Authenticated encryption of chunks with XChaCha20-Poly1305, each chunk
//! under a nonce derived from the master nonce of its object and the
//! chunk's position.
use vstd::prelude::*;
use crate::errors::EnkryptitError;
use crate::key::derivation::random_bytes;

verus! {

#[verifier::external_type_specification]
#[verifier::external_body]
pub struct ExAeadError(chacha20poly1305::aead::Error);

/// The XChaCha20-Poly1305 ciphertext (followed by its 16-byte tag) of a
/// plaintext under a key, a nonce and associated data.
pub uninterp spec fn xchacha20poly1305_seal(key: Seq<u8>, nonce: Seq<u8>, aad: Seq<u8>, plaintext: Seq<u8>) -> Seq<u8>;

/// The plaintext that XChaCha20-Poly1305 authenticates and recovers from a
/// ciphertext with its tag, or `None` when authentication fails.
pub uninterp spec fn xchacha20poly1305_open(key: Seq<u8>, nonce: Seq<u8>, aad: Seq<u8>, ciphertext: Seq<u8>) -> Option<Seq<u8>>;

/// Longest plaintext (in bytes, exclusive) that one nonce may encrypt:
/// 64-byte blocks below `u32::MAX`.
pub open spec fn fits_one_nonce(len: nat) -> bool {
    len / 64 < 0xFFFF_FFFF
}

/// `XChaCha20Poly1305::new(key).encrypt_in_place(nonce, aad, data)`: the
/// buffer becomes the ciphertext followed by the 16-byte tag, which
/// decryption with the same key, nonce and associated data turns back into
/// the plaintext; it fails, leaving the buffer untouched, only when the
/// plaintext is too long for one nonce.
#[verifier::external_body]
fn seal_in_place(key: &[u8; 32], nonce: &[u8; 24], aad: &[u8], data: &mut Vec<u8>) -> (res: Result<(), chacha20poly1305::aead::Error>)
    ensures
        res is Ok <==> fits_one_nonce(old(data)@.len()),
        res is Ok ==> final(data)@ == xchacha20poly1305_seal(key@, nonce@, aad@, old(data)@),
        res is Ok ==> final(data)@.len() == old(data)@.len() + 16,
        res is Ok ==> xchacha20poly1305_open(key@, nonce@, aad@, final(data)@) == Some(old(data)@),
        res is Err ==> final(data)@ == old(data)@,
{
    chacha20poly1305::aead::AeadInPlace::encrypt_in_place(
        &<chacha20poly1305::XChaCha20Poly1305 as chacha20poly1305::KeyInit>::new(key.into()),
        nonce.into(),
        aad,
        data,
    )
}

/// `XChaCha20Poly1305::new(key).decrypt_in_place(nonce, aad, data)`: when
/// the tag authenticates the ciphertext the buffer becomes the plaintext,
/// otherwise the call fails and leaves the buffer untouched; a buffer that
/// encryption produced from a plaintext with the same key, nonce and
/// associated data always gives that plaintext back.
#[verifier::external_body]
fn open_in_place(key: &[u8; 32], nonce: &[u8; 24], aad: &[u8], data: &mut Vec<u8>) -> (res: Result<(), chacha20poly1305::aead::Error>)
    ensures
        res is Ok <==> xchacha20poly1305_open(key@, nonce@, aad@, old(data)@) is Some,
        res is Ok ==> final(data)@ == xchacha20poly1305_open(key@, nonce@, aad@, old(data)@)->0,
        res is Err ==> final(data)@ == old(data)@,
        forall|m: Seq<u8>|
            fits_one_nonce(m.len()) && old(data)@ == #[trigger] xchacha20poly1305_seal(key@, nonce@, aad@, m)
                ==> res is Ok && final(data)@ == m,
{
    chacha20poly1305::aead::AeadInPlace::decrypt_in_place(
        &<chacha20poly1305::XChaCha20Poly1305 as chacha20poly1305::KeyInit>::new(key.into()),
        nonce.into(),
        aad,
        data,
    )
}

/// The eight little-endian bytes of a number.
pub open spec fn le_bytes(v: u64) -> Seq<u8> {
    seq![
        (v & 0xff) as u8,
        ((v >> 8) & 0xff) as u8,
        ((v >> 16) & 0xff) as u8,
        ((v >> 24) & 0xff) as u8,
        ((v >> 32) & 0xff) as u8,
        ((v >> 40) & 0xff) as u8,
        ((v >> 48) & 0xff) as u8,
        ((v >> 56) & 0xff) as u8,
    ]
}

/// The nonce of chunk `step`: the first 16 bytes of the master nonce,
/// then the step in little-endian order.
pub open spec fn spec_derive_nonce(master: Seq<u8>, step: u64) -> Seq<u8> {
    master.subrange(0, 16) + le_bytes(step)
}

/// The nonce of chunk `step` of an object with the given master nonce.
pub fn derive_nonce(master: &[u8; 24], step: u64) -> (res: [u8; 24])
    ensures
        res@ == spec_derive_nonce(master@, step),
{
    let mut nonce = [0u8; 24];
    let mut i: usize = 0;
    while i < 16
        invariant
            0 <= i <= 16,
            nonce@.len() == 24,
            forall|j: int| 0 <= j < i ==> nonce@[j] == master@[j],
        decreases 16 - i,
    {
        nonce.set(i, master[i]);
        i = i + 1;
    }
    let mut k: usize = 0;
    while k < 8
        invariant
            0 <= k <= 8,
            nonce@.len() == 24,
            forall|j: int| 0 <= j < 16 ==> nonce@[j] == master@[j],
            forall|j: int| 0 <= j < k ==> nonce@[16 + j] == le_bytes(step)[j],
        decreases 8 - k,
    {
        let b = ((step >> (8 * k as u64)) & 0xff) as u8;
        proof {
            let kk = k as u64;
            assert(b == le_bytes(step)[k as int]) by {
                assert(kk < 8);
                if kk == 0 {
                    assert(((step >> (8 * kk)) & 0xff) == (step & 0xff)) by (bit_vector) requires kk == 0;
                }
            }
        }
        nonce.set(16 + k, b);
        k = k + 1;
    }
    assert(nonce@ =~= spec_derive_nonce(master@, step));
    nonce
}

/// Chunks of one object get pairwise distinct nonces.
pub proof fn lemma_nonces_distinct(master: Seq<u8>, a: u64, b: u64)
    requires
        master.len() == 24,
        a != b,
    ensures
        spec_derive_nonce(master, a) != spec_derive_nonce(master, b),
{
    if spec_derive_nonce(master, a) == spec_derive_nonce(master, b) {
        let na = spec_derive_nonce(master, a);
        let nb = spec_derive_nonce(master, b);
        assert forall|i: int| 0 <= i < 8 implies le_bytes(a)[i] == le_bytes(b)[i] by {
            assert(na[16 + i] == le_bytes(a)[i]);
            assert(nb[16 + i] == le_bytes(b)[i]);
        }
        assert(le_bytes(a)[0] == le_bytes(b)[0]);
        assert(le_bytes(a)[1] == le_bytes(b)[1]);
        assert(le_bytes(a)[2] == le_bytes(b)[2]);
        assert(le_bytes(a)[3] == le_bytes(b)[3]);
        assert(le_bytes(a)[4] == le_bytes(b)[4]);
        assert(le_bytes(a)[5] == le_bytes(b)[5]);
        assert(le_bytes(a)[6] == le_bytes(b)[6]);
        assert(le_bytes(a)[7] == le_bytes(b)[7]);
        assert(a == b) by (bit_vector)
            requires
                (a & 0xff) as u8 == (b & 0xff) as u8,
                ((a >> 8) & 0xff) as u8 == ((b >> 8) & 0xff) as u8,
                ((a >> 16) & 0xff) as u8 == ((b >> 16) & 0xff) as u8,
                ((a >> 24) & 0xff) as u8 == ((b >> 24) & 0xff) as u8,
                ((a >> 32) & 0xff) as u8 == ((b >> 32) & 0xff) as u8,
                ((a >> 40) & 0xff) as u8 == ((b >> 40) & 0xff) as u8,
                ((a >> 48) & 0xff) as u8 == ((b >> 48) & 0xff) as u8,
                ((a >> 56) & 0xff) as u8 == ((b >> 56) & 0xff) as u8,
        ;
    }
}

/// A fresh random master nonce, or `RandomUnavailable` when the operating
/// system cannot supply one.
pub fn generate_nonce() -> (res: Result<[u8; 24], EnkryptitError>)
    ensures
        res matches Err(e) ==> e == EnkryptitError::RandomUnavailable,
{
    random_bytes()
}

/// The ciphertext of chunk `step` of an object.
pub open spec fn spec_chunk_seal(key: Seq<u8>, master: Seq<u8>, step: u64, plaintext: Seq<u8>) -> Seq<u8> {
    xchacha20poly1305_seal(key, spec_derive_nonce(master, step), Seq::empty(), plaintext)
}

/// The plaintext recovered from chunk `step` of an object.
pub open spec fn spec_chunk_open(key: Seq<u8>, master: Seq<u8>, step: u64, ciphertext: Seq<u8>) -> Option<Seq<u8>> {
    xchacha20poly1305_open(key, spec_derive_nonce(master, step), Seq::empty(), ciphertext)
}

/// Encrypts a chunk in place under the nonce of its step; the chunk grows
/// by its 16-byte tag.
pub fn encrypt_chunk(data: &mut Vec<u8>, master_nonce: &[u8; 24], key: &[u8; 32], step: u64) -> (res: Result<(), EnkryptitError>)
    ensures
        res is Ok <==> fits_one_nonce(old(data)@.len()),
        res is Ok ==> final(data)@ == spec_chunk_seal(key@, master_nonce@, step, old(data)@),
        res is Ok ==> final(data)@.len() == old(data)@.len() + 16,
        res is Ok ==> spec_chunk_open(key@, master_nonce@, step, final(data)@) == Some(old(data)@),
        res is Err ==> res == Err::<(), EnkryptitError>(EnkryptitError::Encryption) && final(data)@ == old(data)@,
{
    let nonce = derive_nonce(master_nonce, step);
    let aad: [u8; 0] = [];
    assert(aad@ =~= Seq::<u8>::empty());
    match seal_in_place(key, &nonce, &aad, data) {
        Ok(()) => Ok(()),
        Err(_) => Err(EnkryptitError::Encryption),
    }
}

/// Decrypts a chunk in place under the nonce of its step; fails, leaving
/// the chunk untouched, when the key, the nonce or the data does not match.
/// A chunk encrypted with the same key, master nonce and step always
/// decrypts to its plaintext.
pub fn decrypt_chunk(data: &mut Vec<u8>, key: &[u8; 32], master_nonce: &[u8; 24], step: u64) -> (res: Result<(), EnkryptitError>)
    ensures
        res is Ok <==> spec_chunk_open(key@, master_nonce@, step, old(data)@) is Some,
        res is Ok ==> final(data)@ == spec_chunk_open(key@, master_nonce@, step, old(data)@)->0,
        res is Err ==> res == Err::<(), EnkryptitError>(EnkryptitError::Decryption) && final(data)@ == old(data)@,
        forall|m: Seq<u8>|
            fits_one_nonce(m.len()) && old(data)@ == #[trigger] spec_chunk_seal(key@, master_nonce@, step, m)
                ==> res is Ok && final(data)@ == m,
{
    let nonce = derive_nonce(master_nonce, step);
    let aad: [u8; 0] = [];
    assert(aad@ =~= Seq::<u8>::empty());
    match open_in_place(key, &nonce, &aad, data) {
        Ok(()) => Ok(()),
        Err(_) => Err(EnkryptitError::Decryption),
    }
}

} // verus!
