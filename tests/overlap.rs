use gfp_core::is_overlapping;

// empty ranges can't overlap, because they represent zero sized types
// which can inhabit any address, and won't alias other values
#[test]
fn zst_no_overlap() {
    assert!(!is_overlapping(1..1, 0..2));
    assert!(!is_overlapping(1..1, 1..2));
    assert!(!is_overlapping(1..1, 1..1));
    assert!(!is_overlapping(1..1, 0..1));

    assert!(!is_overlapping(0..2, 1..1));
    assert!(!is_overlapping(1..2, 1..1));
    assert!(!is_overlapping(1..1, 1..1));
    assert!(!is_overlapping(0..1, 1..1));
}

#[test]
fn does_overlap() {
    assert!(is_overlapping(1..4, 0..5));
    assert!(is_overlapping(1..4, 0..2));
    assert!(is_overlapping(1..4, 2..5));
    assert!(is_overlapping(1..4, 2..3));

    assert!(is_overlapping(0..5, 1..4));
    assert!(is_overlapping(0..2, 1..4));
    assert!(is_overlapping(2..5, 1..4));
    assert!(is_overlapping(2..3, 1..4));

    assert!(is_overlapping(1..4, 1..4));
    assert!(is_overlapping(1..4, 0..4));
    assert!(is_overlapping(0..4, 1..4));
}

#[test]
fn is_disjoint() {
    assert!(!is_overlapping(1..4, 0..1));
    assert!(!is_overlapping(1..4, 4..5));
    assert!(!is_overlapping(1..4, 5..10));
    assert!(!is_overlapping(5..10, 1..4));
}
