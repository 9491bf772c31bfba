//! Where the files of a folder archive lie in its payload.

use eck::layout::{entry_offsets, entry_span};

#[test]
fn offsets_are_running_totals() {
    assert_eq!(entry_offsets(&vec![]), Some(vec![]));
    assert_eq!(entry_offsets(&vec![5, 0, 7, 3]), Some(vec![0, 5, 5, 12]));
    assert_eq!(entry_offsets(&vec![u64::MAX, 1]), None);
    assert_eq!(entry_offsets(&vec![u64::MAX]), Some(vec![0]));
}

#[test]
fn spans_find_each_piece() {
    let lengths = vec![5, 0, 7, 3];
    let offsets = entry_offsets(&lengths).unwrap();
    assert_eq!(entry_span(&offsets, 0, 15), Some((0, 5)));
    assert_eq!(entry_span(&offsets, 1, 15), Some((5, 5)));
    assert_eq!(entry_span(&offsets, 2, 15), Some((5, 12)));
    assert_eq!(entry_span(&offsets, 3, 15), Some((12, 15)));
}

#[test]
fn bad_spans_are_refused() {
    assert_eq!(entry_span(&vec![4, 2], 0, 10), None);
    assert_eq!(entry_span(&vec![0, 12], 1, 10), None);
    assert_eq!(entry_span(&vec![0, 12], 0, 10), None);
}
