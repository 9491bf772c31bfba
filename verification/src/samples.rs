//! Reproducible sample content, used to exercise treatments.
use vstd::prelude::*;

verus! {

/// Byte `i` of the sample content.
pub open spec fn sample_byte(i: int) -> int {
    (i * 2654435781) % 256
}

/// Deterministic pseudo-random content of the given size: byte `i` is
/// `i * 2654435781 mod 256`.
pub fn generate_random_content(size: usize) -> (res: Vec<u8>)
    ensures
        res@.len() == size,
        forall|i: int| 0 <= i < size ==> res@[i] == sample_byte(i),
{
    let mut content: Vec<u8> = Vec::new();
    let mut i: usize = 0;
    while i < size
        invariant
            0 <= i <= size,
            content@.len() == i,
            forall|j: int| 0 <= j < i ==> content@[j] == sample_byte(j),
        decreases size - i,
    {
        let b = (((i % 256) * 197) % 256) as u8;
        proof {
            vstd::arithmetic::div_mod::lemma_mul_mod_noop(i as int, 2654435781, 256);
            assert(2654435781int % 256 == 197);
        }
        content.push(b);
        i = i + 1;
    }
    content
}

} // verus!
