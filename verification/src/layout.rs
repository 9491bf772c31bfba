//! Where the files of a folder archive lie in its payload: one sealed
//! payload after the other, each entry recording where its own starts.
use vstd::prelude::*;

verus! {

/// Total length of the first `n` pieces.
pub open spec fn prefix_sum(lengths: Seq<u64>, n: int) -> int
    decreases n,
{
    if n <= 0 {
        0
    } else {
        prefix_sum(lengths, n - 1) + lengths[n - 1]
    }
}

/// Longer prefixes are never shorter.
proof fn lemma_prefix_sum_monotone(lengths: Seq<u64>, a: int, b: int)
    requires
        0 <= a <= b,
    ensures
        prefix_sum(lengths, a) <= prefix_sum(lengths, b),
    decreases b - a,
{
    if a < b {
        lemma_prefix_sum_monotone(lengths, a, b - 1);
    }
}

/// The offset of each piece when the pieces are laid one after the other;
/// `None` when the whole does not fit in 64 bits.
pub fn entry_offsets(lengths: &Vec<u64>) -> (res: Option<Vec<u64>>)
    ensures
        res is Some <==> prefix_sum(lengths@, lengths@.len() as int) <= u64::MAX,
        res matches Some(offsets) ==> offsets@.len() == lengths@.len() && forall|i: int|
            0 <= i < lengths@.len() ==> #[trigger] offsets@[i] == prefix_sum(lengths@, i),
{
    let mut offsets: Vec<u64> = Vec::new();
    let mut acc: u64 = 0;
    let mut i: usize = 0;
    while i < lengths.len()
        invariant
            i <= lengths@.len(),
            acc == prefix_sum(lengths@, i as int),
            offsets@.len() == i,
            forall|j: int| 0 <= j < i ==> #[trigger] offsets@[j] == prefix_sum(lengths@, j),
        decreases lengths@.len() - i,
    {
        offsets.push(acc);
        match acc.checked_add(lengths[i]) {
            Some(next) => acc = next,
            None => {
                proof {
                    lemma_prefix_sum_monotone(lengths@, i + 1, lengths@.len() as int);
                }
                return None;
            },
        }
        i = i + 1;
    }
    Some(offsets)
}

/// Where entry `i` lies in a payload of `payload_len` bytes: from its
/// offset to the next entry's, or to the end for the last one; `None` when
/// that span is reversed or leaves the payload.
pub open spec fn spec_entry_span(offsets: Seq<u64>, i: int, payload_len: u64) -> Option<(u64, u64)> {
    let start = offsets[i];
    let end = if i + 1 < offsets.len() { offsets[i + 1] } else { payload_len };
    if start <= end && end <= payload_len {
        Some((start, end))
    } else {
        None
    }
}

/// Where entry `i` lies in a payload of `payload_len` bytes.
pub fn entry_span(offsets: &Vec<u64>, i: usize, payload_len: u64) -> (res: Option<(u64, u64)>)
    requires
        i < offsets@.len(),
    ensures
        res == spec_entry_span(offsets@, i as int, payload_len),
{
    let start = offsets[i];
    let end = if i < offsets.len() - 1 { offsets[i + 1] } else { payload_len };
    if start <= end && end <= payload_len {
        Some((start, end))
    } else {
        None
    }
}

/// Laying pieces one after the other and reading the entries back finds
/// each piece where it was put: entry `i` spans from the end of the pieces
/// before it to the end of piece `i`.
pub proof fn lemma_entry_spans(lengths: Seq<u64>, offsets: Seq<u64>, i: int)
    requires
        0 <= i < lengths.len(),
        offsets.len() == lengths.len(),
        forall|j: int| 0 <= j < lengths.len() ==> #[trigger] offsets[j] == prefix_sum(lengths, j),
        prefix_sum(lengths, lengths.len() as int) <= u64::MAX,
    ensures
        spec_entry_span(offsets, i, prefix_sum(lengths, lengths.len() as int) as u64) == Some(
            (prefix_sum(lengths, i) as u64, prefix_sum(lengths, i + 1) as u64),
        ),
{
    lemma_prefix_sum_monotone(lengths, i, i + 1);
    lemma_prefix_sum_monotone(lengths, i + 1, lengths.len() as int);
    lemma_prefix_sum_monotone(lengths, 0, i);
    if i + 1 < offsets.len() {
        assert(offsets[i + 1] == prefix_sum(lengths, i + 1));
    }
}

} // verus!
