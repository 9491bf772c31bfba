//! The payload of an archive: the plaintext cut into chunks of
//! `CHUNK_SIZE` bytes (the last one may be shorter), each sealed under the
//! nonce of its position, one after the other.
use vstd::prelude::*;
use vstd::slice::slice_to_vec;
use crate::encryption::{decrypt_chunk, encrypt_chunk, spec_chunk_open, spec_chunk_seal};
use crate::errors::EnkryptitError;
use crate::types::CHUNK_SIZE;

verus! {

/// Length of a sealed full chunk: the chunk and its 16-byte tag.
pub const SEALED_CHUNK_SIZE: usize = 8388624;

/// The sealed form of `data`, whose first chunk has position `step`.
pub open spec fn spec_seal_payload(key: Seq<u8>, master: Seq<u8>, data: Seq<u8>, step: nat) -> Seq<u8>
    decreases data.len(),
{
    if data.len() == 0 {
        Seq::empty()
    } else if data.len() <= CHUNK_SIZE {
        spec_chunk_seal(key, master, step as u64, data)
    } else {
        spec_chunk_seal(key, master, step as u64, data.subrange(0, CHUNK_SIZE as int)) + spec_seal_payload(
            key,
            master,
            data.subrange(CHUNK_SIZE as int, data.len() as int),
            step + 1,
        )
    }
}

/// The plaintext that a sealed payload, whose first chunk has position
/// `step`, opens to: it is cut into pieces of `SEALED_CHUNK_SIZE` bytes (the
/// last one may be shorter), each opened under the nonce of its position;
/// `None` when a piece does not open.
pub open spec fn spec_open_payload(key: Seq<u8>, master: Seq<u8>, sealed: Seq<u8>, step: nat) -> Option<Seq<u8>>
    decreases sealed.len(),
{
    if sealed.len() == 0 {
        Some(Seq::empty())
    } else if sealed.len() <= SEALED_CHUNK_SIZE {
        spec_chunk_open(key, master, step as u64, sealed)
    } else {
        match spec_chunk_open(key, master, step as u64, sealed.subrange(0, SEALED_CHUNK_SIZE as int)) {
            None => None,
            Some(first) => match spec_open_payload(
                key,
                master,
                sealed.subrange(SEALED_CHUNK_SIZE as int, sealed.len() as int),
                step + 1,
            ) {
                None => None,
                Some(rest) => Some(first + rest),
            },
        }
    }
}

/// Both parts opened, one after the other.
pub open spec fn joined(first: Option<Seq<u8>>, second: Option<Seq<u8>>) -> Option<Seq<u8>> {
    match (first, second) {
        (Some(p), Some(q)) => Some(p + q),
        _ => None,
    }
}

/// Sealing whole chunks and then the rest is sealing the whole.
proof fn lemma_seal_split(key: Seq<u8>, master: Seq<u8>, a: Seq<u8>, b: Seq<u8>, step: nat, k: nat)
    requires
        a.len() == k * CHUNK_SIZE,
    ensures
        spec_seal_payload(key, master, a + b, step) == spec_seal_payload(key, master, a, step) + spec_seal_payload(
            key,
            master,
            b,
            step + k,
        ),
    decreases k,
{
    let c = CHUNK_SIZE as int;
    let ab = a + b;
    if k == 0 {
        assert(ab =~= b);
        assert(Seq::<u8>::empty() + spec_seal_payload(key, master, b, step) =~= spec_seal_payload(key, master, b, step));
    } else {
        let a1 = a.subrange(c, a.len() as int);
        assert(ab.subrange(0, c) =~= a.subrange(0, c));
        assert(ab.subrange(c, ab.len() as int) =~= a1 + b);
        lemma_seal_split(key, master, a1, b, step + 1, (k - 1) as nat);
        let head = spec_chunk_seal(key, master, step as u64, a.subrange(0, c));
        if k == 1 {
            assert(a1 =~= Seq::<u8>::empty());
            assert(a1 + b =~= b);
            if b.len() == 0 {
                assert(ab =~= a);
                assert(spec_seal_payload(key, master, a, step) + Seq::<u8>::empty() =~= spec_seal_payload(key, master, a, step));
            } else {
                assert(a.subrange(0, c) =~= a);
                assert(head + (Seq::<u8>::empty() + spec_seal_payload(key, master, b, step + 1)) =~= head
                    + spec_seal_payload(key, master, b, step + 1));
            }
        } else {
            let rest_a = spec_seal_payload(key, master, a1, step + 1);
            let rest_b = spec_seal_payload(key, master, b, step + k);
            assert(head + (rest_a + rest_b) =~= (head + rest_a) + rest_b);
        }
    }
}

/// Opening whole sealed chunks and then the rest is opening the whole.
proof fn lemma_open_split(key: Seq<u8>, master: Seq<u8>, a: Seq<u8>, b: Seq<u8>, step: nat, k: nat)
    requires
        a.len() == k * SEALED_CHUNK_SIZE,
    ensures
        spec_open_payload(key, master, a + b, step) == joined(
            spec_open_payload(key, master, a, step),
            spec_open_payload(key, master, b, step + k),
        ),
    decreases k,
{
    let s = SEALED_CHUNK_SIZE as int;
    let ab = a + b;
    if k == 0 {
        assert(ab =~= b);
        match spec_open_payload(key, master, b, step) {
            Some(q) => {
                assert(Seq::<u8>::empty() + q =~= q);
            },
            None => {},
        }
    } else if b.len() == 0 {
        assert(ab =~= a);
        match spec_open_payload(key, master, a, step) {
            Some(p) => {
                assert(p + Seq::<u8>::empty() =~= p);
            },
            None => {},
        }
    } else {
        let a1 = a.subrange(s, a.len() as int);
        assert(ab.subrange(0, s) =~= a.subrange(0, s));
        assert(ab.subrange(s, ab.len() as int) =~= a1 + b);
        lemma_open_split(key, master, a1, b, step + 1, (k - 1) as nat);
        if k == 1 {
            assert(a1 =~= Seq::<u8>::empty());
            assert(a.subrange(0, s) =~= a);
        } else {
            match spec_chunk_open(key, master, step as u64, a.subrange(0, s)) {
                Some(first) => match spec_open_payload(key, master, a1, step + 1) {
                    Some(rest) => match spec_open_payload(key, master, b, step + k) {
                        Some(q) => {
                            assert(first + (rest + q) =~= (first + rest) + q);
                        },
                        None => {},
                    },
                    None => {},
                },
                None => {},
            }
        }
    }
}

/// Seals a plaintext under a master nonce and a key. What it returns
/// opens back to the plaintext.
pub fn seal_payload(data: &[u8], master_nonce: &[u8; 24], key: &[u8; 32]) -> (res: Vec<u8>)
    ensures
        res@ == spec_seal_payload(key@, master_nonce@, data@, 0),
        spec_open_payload(key@, master_nonce@, res@, 0) == Some(data@),
{
    let mut out: Vec<u8> = Vec::new();
    let mut pos: usize = 0;
    let mut step: u64 = 0;
    assert(data@.subrange(0, 0) =~= Seq::<u8>::empty());
    while data.len() - pos > CHUNK_SIZE
        invariant
            pos <= data@.len(),
            pos == step * CHUNK_SIZE,
            out@.len() == step * SEALED_CHUNK_SIZE,
            out@ == spec_seal_payload(key@, master_nonce@, data@.subrange(0, pos as int), 0),
            spec_open_payload(key@, master_nonce@, out@, 0) == Some(data@.subrange(0, pos as int)),
        decreases data@.len() - pos,
    {
        let end = pos + CHUNK_SIZE;
        let mut chunk = slice_to_vec(&data[pos..end]);
        let ghost plain = chunk@;
        match encrypt_chunk(&mut chunk, master_nonce, key, step) {
            Ok(()) => {},
            Err(_) => {
                proof {
                    assert(false);
                }
            },
        }
        proof {
            let prefix = data@.subrange(0, pos as int);
            assert(data@.subrange(0, end as int) =~= prefix + plain);
            lemma_seal_split(key@, master_nonce@, prefix, plain, 0, step as nat);
            lemma_open_split(key@, master_nonce@, out@, chunk@, 0, step as nat);
            assert(prefix + plain =~= data@.subrange(0, end as int));
        }
        let ghost before = out@;
        out.append(&mut chunk);
        proof {
            assert(out@ =~= before + (out@.subrange(before.len() as int, out@.len() as int)));
        }
        pos = end;
        step = step + 1;
    }
    if pos < data.len() {
        let mut chunk = slice_to_vec(&data[pos..data.len()]);
        let ghost plain = chunk@;
        match encrypt_chunk(&mut chunk, master_nonce, key, step) {
            Ok(()) => {},
            Err(_) => {
                proof {
                    assert(false);
                }
            },
        }
        proof {
            let prefix = data@.subrange(0, pos as int);
            assert(data@ =~= prefix + plain);
            lemma_seal_split(key@, master_nonce@, prefix, plain, 0, step as nat);
            lemma_open_split(key@, master_nonce@, out@, chunk@, 0, step as nat);
        }
        out.append(&mut chunk);
    } else {
        proof {
            assert(data@.subrange(0, pos as int) =~= data@);
        }
    }
    out
}

/// Opens a sealed payload under a key and a master nonce; `Decryption`
/// when a piece does not open, in which case nothing is returned.
pub fn open_payload(sealed: &[u8], key: &[u8; 32], master_nonce: &[u8; 24]) -> (res: Result<Vec<u8>, EnkryptitError>)
    ensures
        match spec_open_payload(key@, master_nonce@, sealed@, 0) {
            Some(p) => res matches Ok(v) && v@ == p,
            None => res == Err::<Vec<u8>, EnkryptitError>(EnkryptitError::Decryption),
        },
{
    let mut out: Vec<u8> = Vec::new();
    let mut pos: usize = 0;
    let mut step: u64 = 0;
    assert(sealed@.subrange(0, 0) =~= Seq::<u8>::empty());
    while sealed.len() - pos > SEALED_CHUNK_SIZE
        invariant
            pos <= sealed@.len(),
            pos == step * SEALED_CHUNK_SIZE,
            spec_open_payload(key@, master_nonce@, sealed@.subrange(0, pos as int), 0) == Some(out@),
        decreases sealed@.len() - pos,
    {
        let end = pos + SEALED_CHUNK_SIZE;
        let mut piece = slice_to_vec(&sealed[pos..end]);
        let ghost cipher = piece@;
        let opened = decrypt_chunk(&mut piece, key, master_nonce, step);
        proof {
            let prefix = sealed@.subrange(0, pos as int);
            let rest = sealed@.subrange(pos as int, sealed@.len() as int);
            assert(sealed@ =~= prefix + rest);
            lemma_open_split(key@, master_nonce@, prefix, rest, 0, step as nat);
            assert(rest.subrange(0, SEALED_CHUNK_SIZE as int) =~= cipher);
            assert(sealed@.subrange(0, end as int) =~= prefix + cipher);
            lemma_open_split(key@, master_nonce@, prefix, cipher, 0, step as nat);
        }
        match opened {
            Ok(()) => {},
            Err(_) => {
                return Err(EnkryptitError::Decryption);
            },
        }
        out.append(&mut piece);
        pos = end;
        step = step + 1;
    }
    let mut last = slice_to_vec(&sealed[pos..sealed.len()]);
    let ghost cipher = last@;
    proof {
        let prefix = sealed@.subrange(0, pos as int);
        assert(sealed@ =~= prefix + cipher);
        lemma_open_split(key@, master_nonce@, prefix, cipher, 0, step as nat);
    }
    if last.len() == 0 {
        assert(out@ + Seq::<u8>::empty() =~= out@);
        return Ok(out);
    }
    match decrypt_chunk(&mut last, key, master_nonce, step) {
        Ok(()) => {},
        Err(_) => {
            return Err(EnkryptitError::Decryption);
        },
    }
    out.append(&mut last);
    Ok(out)
}

/// Number of pieces of `size` bytes (the last one may be shorter) that
/// `n` bytes are cut into.
pub open spec fn piece_count(n: nat, size: nat) -> nat
    decreases n,
{
    if n == 0 || size == 0 {
        0
    } else if n <= size {
        1
    } else {
        1 + piece_count((n - size) as nat, size)
    }
}

/// Piece `k` when `data` is cut into pieces of `size` bytes.
pub open spec fn piece_of(data: Seq<u8>, size: nat, k: int) -> Seq<u8> {
    let start = k * size;
    let end = if (k + 1) * size <= data.len() { (k + 1) * size } else { data.len() as int };
    data.subrange(start, end)
}

/// The chunks of a plaintext, each sealed under the nonce of its position
/// counted from `step`.
pub open spec fn sealed_chunks(key: Seq<u8>, master: Seq<u8>, data: Seq<u8>, step: nat) -> Seq<Seq<u8>> {
    Seq::new(
        piece_count(data.len(), CHUNK_SIZE as nat),
        |k: int| spec_chunk_seal(key, master, (step + k) as u64, piece_of(data, CHUNK_SIZE as nat, k)),
    )
}

/// The pieces of a sealed payload, each holding one sealed chunk.
pub open spec fn sealed_pieces(sealed: Seq<u8>) -> Seq<Seq<u8>> {
    Seq::new(piece_count(sealed.len(), SEALED_CHUNK_SIZE as nat), |k: int| piece_of(sealed, SEALED_CHUNK_SIZE as nat, k))
}

/// Opening pieces one after the other, the first under the nonce of
/// position `step`: all the plaintexts joined, or `None` when one does not
/// open.
pub open spec fn open_pieces(key: Seq<u8>, master: Seq<u8>, pieces: Seq<Seq<u8>>, step: nat) -> Option<Seq<u8>>
    decreases pieces.len(),
{
    if pieces.len() == 0 {
        Some(Seq::empty())
    } else {
        joined(
            spec_chunk_open(key, master, step as u64, pieces[0]),
            open_pieces(key, master, pieces.drop_first(), step + 1),
        )
    }
}

/// Cutting a piece off the front leaves the later pieces as they were.
proof fn lemma_pieces_shift(data: Seq<u8>, size: nat, k: int)
    requires
        size > 0,
        data.len() > size,
        0 <= k,
        k * size < data.len() - size,
    ensures
        piece_of(data, size, k + 1) == piece_of(data.subrange(size as int, data.len() as int), size, k),
{
    let rest = data.subrange(size as int, data.len() as int);
    assert((k + 1) * size == k * size + size) by (nonlinear_arith);
    assert((k + 2) * size == (k + 1) * size + size) by (nonlinear_arith);
    let a = piece_of(data, size, k + 1);
    let b = piece_of(rest, size, k);
    assert(a.len() == b.len());
    assert forall|i: int| 0 <= i < a.len() implies a[i] == b[i] by {
        assert(a[i] == data[(k + 1) * size + i]);
        assert(b[i] == rest[k * size + i]);
    }
    assert(a =~= b);
}

/// Sealing a plaintext is sealing each of its chunks under the nonce of its
/// position, the results laid one after the other.
pub proof fn lemma_seal_by_chunks(key: Seq<u8>, master: Seq<u8>, data: Seq<u8>, step: nat)
    ensures
        spec_seal_payload(key, master, data, step) == sealed_chunks(key, master, data, step).flatten(),
    decreases data.len(),
{
    let c = CHUNK_SIZE as nat;
    let x = sealed_chunks(key, master, data, step);
    if data.len() == 0 {
        assert(x.len() == 0);
    } else if data.len() <= c {
        assert(x.len() == 1);
        assert(piece_of(data, c, 0) =~= data);
        assert(x.drop_first().len() == 0);
        assert(x.first() + x.drop_first().flatten() =~= x.first());
    } else {
        let rest = data.subrange(c as int, data.len() as int);
        lemma_seal_by_chunks(key, master, rest, step + 1);
        let y = sealed_chunks(key, master, rest, step + 1);
        assert(piece_of(data, c, 0) =~= data.subrange(0, c as int));
        assert forall|k: int| 0 <= k < y.len() implies #[trigger] x.drop_first()[k] == y[k] by {
            lemma_piece_exists(rest.len(), c, k);
            lemma_pieces_shift(data, c, k);
        }
        assert(x.drop_first() =~= y);
    }
}

/// Opening a sealed payload is opening each of its pieces under the nonce
/// of its position, the plaintexts laid one after the other.
pub proof fn lemma_open_by_pieces(key: Seq<u8>, master: Seq<u8>, sealed: Seq<u8>, step: nat)
    ensures
        spec_open_payload(key, master, sealed, step) == open_pieces(key, master, sealed_pieces(sealed), step),
    decreases sealed.len(),
{
    let s = SEALED_CHUNK_SIZE as nat;
    let x = sealed_pieces(sealed);
    if sealed.len() == 0 {
        assert(x.len() == 0);
    } else if sealed.len() <= s {
        assert(x.len() == 1);
        assert(piece_of(sealed, s, 0) =~= sealed);
        assert(x.drop_first().len() == 0);
        assert(open_pieces(key, master, x.drop_first(), step + 1) == Some(Seq::<u8>::empty()));
        match spec_chunk_open(key, master, step as u64, sealed) {
            Some(p) => {
                assert(p + Seq::<u8>::empty() =~= p);
            },
            None => {},
        }
    } else {
        let rest = sealed.subrange(s as int, sealed.len() as int);
        lemma_open_by_pieces(key, master, rest, step + 1);
        let y = sealed_pieces(rest);
        assert(piece_of(sealed, s, 0) =~= sealed.subrange(0, s as int));
        assert forall|k: int| 0 <= k < y.len() implies #[trigger] x.drop_first()[k] == y[k] by {
            lemma_piece_exists(rest.len(), s, k);
            lemma_pieces_shift(sealed, s, k);
        }
        assert(x.drop_first() =~= y);
        assert(open_pieces(key, master, x, step) == joined(
            spec_chunk_open(key, master, step as u64, x[0]),
            open_pieces(key, master, y, step + 1),
        ));
    }
}

/// Whether piece `k` of `n` bytes cut into pieces of `size` exists.
proof fn lemma_piece_exists(n: nat, size: nat, k: int)
    requires
        size > 0,
        k >= 0,
    ensures
        k < piece_count(n, size) <==> k * size < n,
    decreases n,
{
    if n > size {
        if k > 0 {
            lemma_piece_exists((n - size) as nat, size, k - 1);
            assert((k - 1) * size == k * size - size) by (nonlinear_arith);
        }
    } else if n > 0 {
        if k > 0 {
            assert(k * size >= size) by (nonlinear_arith)
                requires
                    k >= 1,
                    size > 0,
            ;
        }
    }
}

/// Where piece `k` lies when `len` bytes are cut into pieces of `size`
/// bytes; `None` when there is no such piece.
fn piece_range(len: usize, size: usize, k: usize) -> (res: Option<(usize, usize)>)
    requires
        size > 0,
    ensures
        res is Some <==> k < piece_count(len as nat, size as nat),
        res matches Some((start, end)) ==> start == k * size && end == (if (k + 1) * size <= len {
            (k + 1) * size
        } else {
            len as int
        }) && start < end <= len,
{
    proof {
        lemma_piece_exists(len as nat, size as nat, k as int);
    }
    let start = match k.checked_mul(size) {
        Some(v) => v,
        None => return None,
    };
    if start >= len {
        return None;
    }
    let end = if len - start > size { start + size } else { len };
    proof {
        assert((k + 1) * size == k * size + size) by (nonlinear_arith);
    }
    Some((start, end))
}

/// Where chunk `k` of a plaintext of `len` bytes lies, when there is such
/// a chunk: sealing the chunks in order of position, chunk `k` under step
/// `k`, and laying the results one after the other gives the sealed payload
/// (see [`lemma_seal_by_chunks`]).
pub fn chunk_range(len: usize, k: usize) -> (res: Option<(usize, usize)>)
    ensures
        res is Some <==> k < piece_count(len as nat, CHUNK_SIZE as nat),
        res matches Some((start, end)) ==> start < end <= len && forall|data: Seq<u8>|
            #![trigger piece_of(data, CHUNK_SIZE as nat, k as int)]
            data.len() == len ==> data.subrange(start as int, end as int) == piece_of(data, CHUNK_SIZE as nat, k as int),
{
    piece_range(len, CHUNK_SIZE, k)
}

/// Where sealed piece `k` of a sealed payload of `len` bytes lies, when
/// there is such a piece: opening the pieces in order of position, piece
/// `k` under step `k`, and joining the plaintexts opens the payload (see
/// [`lemma_open_by_pieces`]).
pub fn sealed_piece_range(len: usize, k: usize) -> (res: Option<(usize, usize)>)
    ensures
        res is Some <==> k < piece_count(len as nat, SEALED_CHUNK_SIZE as nat),
        res matches Some((start, end)) ==> start < end <= len && forall|sealed: Seq<u8>|
            #![trigger piece_of(sealed, SEALED_CHUNK_SIZE as nat, k as int)]
            sealed.len() == len ==> sealed.subrange(start as int, end as int) == piece_of(
                sealed,
                SEALED_CHUNK_SIZE as nat,
                k as int,
            ),
{
    piece_range(len, SEALED_CHUNK_SIZE, k)
}

} // verus!
