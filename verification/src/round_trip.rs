//! What an archive written by this version gives back: its header is
//! recognised, its metadata is found, and its payload opens, under the key
//! that decryption resolves, to what was sealed.
use vstd::prelude::*;
use crate::key::resolve::{same_key, Resolution};
use crate::errors::EnkryptitError;
use crate::layout::{lemma_entry_spans, prefix_sum, spec_entry_span};
use crate::metadatas::{ArchiveHeader, MAGIC};
use crate::payload::spec_open_payload;
use crate::treatment::{lemma_written_header_recognised, spec_locate_metadata, MetaLocation, MAX_HEADER_LEN};
use crate::VERSION;

verus! {

/// The header written for an archive of the given kind and metadata
/// length.
pub open spec fn written_header(is_folder_archive: bool, meta_len: nat) -> ArchiveHeader {
    ArchiveHeader { magic: MAGIC, version: VERSION, is_folder_archive, meta_len: meta_len as u32 }
}

/// A file archive is its length byte and header, its metadata, then its
/// sealed payload. Reading it back finds the metadata right after the
/// header, and the payload from there on opens, under the key decryption
/// resolves, to the plaintext that was sealed.
pub proof fn lemma_file_archive_round_trip(
    archive: Seq<u8>,
    header_len: usize,
    meta: Seq<u8>,
    sealed: Seq<u8>,
    nonce: Seq<u8>,
    data: Seq<u8>,
    encrypted: Resolution,
    decrypted: Result<Resolution, EnkryptitError>,
)
    requires
        1 <= header_len <= MAX_HEADER_LEN,
        meta.len() <= u32::MAX,
        archive.len() == 1 + header_len + meta.len() + sealed.len(),
        archive.len() <= u64::MAX,
        archive.subrange(1 + header_len, 1 + header_len + meta.len()) == meta,
        archive.subrange(1 + header_len + meta.len(), archive.len() as int) == sealed,
        spec_open_payload(encrypted.key.bytes(), nonce, sealed, 0) == Some(data),
        same_key(encrypted, decrypted),
    ensures
        spec_locate_metadata(archive.len() as u64, header_len, Some(written_header(false, meta.len())))
            matches MetaLocation::At { start, len, version, is_folder_archive, payload_offset } && {
            &&& version == VERSION
            &&& !is_folder_archive
            &&& archive.subrange(start as int, start + len) == meta
            &&& decrypted matches Ok(r) && spec_open_payload(
                r.key.bytes(),
                nonce,
                archive.subrange(payload_offset as int, archive.len() as int),
                0,
            ) == Some(data)
        },
{
    lemma_written_header_recognised(false, meta.len() as u32, header_len, archive.len() as u64, written_header(false, meta.len()));
}

/// Lengths of the pieces, in order.
pub open spec fn lengths_of(pieces: Seq<Seq<u8>>) -> Seq<u64> {
    pieces.map_values(|p: Seq<u8>| p.len() as u64)
}

/// Prefix sums depend on the first lengths only.
proof fn lemma_prefix_sum_prefix(a: Seq<u64>, b: Seq<u64>, n: int)
    requires
        0 <= n,
        n <= a.len(),
        n <= b.len(),
        forall|j: int| 0 <= j < n ==> a[j] == b[j],
    ensures
        prefix_sum(a, n) == prefix_sum(b, n),
    decreases n,
{
    if n > 0 {
        lemma_prefix_sum_prefix(a, b, n - 1);
    }
}

/// Prefix sums never decrease.
proof fn lemma_prefix_sum_grows(a: Seq<u64>, i: int, j: int)
    requires
        0 <= i <= j,
    ensures
        prefix_sum(a, i) <= prefix_sum(a, j),
    decreases j - i,
{
    if i < j {
        lemma_prefix_sum_grows(a, i, j - 1);
    }
}

/// Pieces laid one after the other: the whole is as long as all of them,
/// and piece `i` lies between the total lengths of the pieces before it
/// and up to it.
proof fn lemma_laid_pieces(pieces: Seq<Seq<u8>>, i: int)
    requires
        0 <= i < pieces.len(),
        forall|j: int| 0 <= j < pieces.len() ==> #[trigger] pieces[j].len() <= u64::MAX,
    ensures
        pieces.flatten_alt().len() == prefix_sum(lengths_of(pieces), pieces.len() as int),
        pieces.flatten_alt().subrange(
            prefix_sum(lengths_of(pieces), i),
            prefix_sum(lengths_of(pieces), i + 1),
        ) == pieces[i],
    decreases pieces.len(),
{
    let n = pieces.len() as int;
    let q = pieces.drop_last();
    let l = lengths_of(pieces);
    let lq = lengths_of(q);
    assert forall|j: int| 0 <= j < n - 1 implies lq[j] == l[j] by {}
    lemma_prefix_sum_prefix(l, lq, n - 1);
    if i < n - 1 {
        lemma_laid_pieces(q, i);
        lemma_prefix_sum_prefix(l, lq, i);
        lemma_prefix_sum_prefix(l, lq, i + 1);
        lemma_prefix_sum_grows(lq, i + 1, n - 1);
        lemma_prefix_sum_grows(lq, 0, i);
        lemma_prefix_sum_grows(lq, i, i + 1);
        let f = q.flatten_alt();
        assert(f.len() == prefix_sum(lq, n - 1));
        assert(pieces.flatten_alt() == f + pieces.last());
        assert(pieces.flatten_alt().subrange(prefix_sum(l, i), prefix_sum(l, i + 1)) =~= f.subrange(
            prefix_sum(lq, i),
            prefix_sum(lq, i + 1),
        ));
    } else {
        if n > 1 {
            lemma_laid_pieces(q, 0);
        } else {
            assert(q.len() == 0);
            assert(q.flatten_alt() == Seq::<u8>::empty());
        }
        let f = q.flatten_alt();
        assert(pieces.flatten_alt() == f + pieces.last());
        assert(pieces.flatten_alt().subrange(prefix_sum(l, i), prefix_sum(l, i + 1)) =~= pieces.last());
    }
}

/// A folder archive is its length byte and header, its metadata, the
/// sealed payload of each file one after the other, and its metadata again.
/// Reading it back finds the metadata at the end, the entries' offsets
/// (running totals of the sealed lengths) find each file's sealed payload,
/// and each opens, under the key decryption resolves, to that file's
/// content.
pub proof fn lemma_folder_archive_round_trip(
    archive: Seq<u8>,
    header_len: usize,
    meta: Seq<u8>,
    pieces: Seq<Seq<u8>>,
    offsets: Seq<u64>,
    nonces: Seq<Seq<u8>>,
    contents: Seq<Seq<u8>>,
    encrypted: Resolution,
    decrypted: Result<Resolution, EnkryptitError>,
    i: int,
)
    requires
        1 <= header_len <= MAX_HEADER_LEN,
        meta.len() <= u32::MAX,
        archive.len() == 1 + header_len + meta.len() + pieces.flatten().len() + meta.len(),
        archive.len() <= u64::MAX,
        archive.subrange(1 + header_len + meta.len(), archive.len() - meta.len()) == pieces.flatten(),
        archive.subrange(archive.len() - meta.len(), archive.len() as int) == meta,
        forall|j: int| 0 <= j < pieces.len() ==> #[trigger] pieces[j].len() <= u64::MAX,
        offsets.len() == pieces.len(),
        forall|j: int| 0 <= j < pieces.len() ==> #[trigger] offsets[j] == prefix_sum(lengths_of(pieces), j),
        prefix_sum(lengths_of(pieces), pieces.len() as int) <= u64::MAX,
        nonces.len() == pieces.len(),
        contents.len() == pieces.len(),
        forall|j: int| 0 <= j < pieces.len() ==> spec_open_payload(encrypted.key.bytes(), #[trigger] nonces[j], pieces[j], 0)
            == Some(contents[j]),
        same_key(encrypted, decrypted),
        0 <= i < pieces.len(),
    ensures
        spec_locate_metadata(archive.len() as u64, header_len, Some(written_header(true, meta.len())))
            matches MetaLocation::At { start, len, version, is_folder_archive, payload_offset } && {
            let payload = archive.subrange(payload_offset as int, archive.len() - meta.len());
            &&& version == VERSION
            &&& is_folder_archive
            &&& archive.subrange(start as int, start + len) == meta
            &&& spec_entry_span(offsets, i, payload.len() as u64) matches Some((from, to))
            &&& decrypted matches Ok(r) && spec_open_payload(
                r.key.bytes(),
                nonces[i],
                payload.subrange(from as int, to as int),
                0,
            ) == Some(contents[i])
        },
{
    let flat = pieces.flatten();
    pieces.lemma_flatten_and_flatten_alt_are_equivalent();
    lemma_laid_pieces(pieces, i);
    lemma_written_header_recognised(true, meta.len() as u32, header_len, archive.len() as u64, written_header(true, meta.len()));
    let l = lengths_of(pieces);
    lemma_entry_spans(l, offsets, i);
    let payload_offset = 1 + header_len + meta.len();
    let payload = archive.subrange(payload_offset, archive.len() - meta.len());
    assert(payload == flat);
}

} // verus!
