use minimp3::{ByteRing, Error, BUFFER_SIZE};

#[test]
fn new_ring_is_empty() {
    let ring = ByteRing::new();
    assert_eq!(ring.len(), 0);
    assert_eq!(ring.as_contiguous_slice(), &[] as &[u8]);
}

#[test]
fn append_then_read_back() {
    let mut ring = ByteRing::new();
    ring.append(&[1, 2, 3]).unwrap();
    ring.append(&[4, 5]).unwrap();
    assert_eq!(ring.len(), 5);
    assert_eq!(ring.as_contiguous_slice(), &[1, 2, 3, 4, 5]);
}

#[test]
fn truncate_front_drops_exactly_that_prefix() {
    let mut ring = ByteRing::new();
    ring.append(&[10, 11, 12, 13, 14]).unwrap();
    let before = ring.len();
    ring.truncate_front(2);
    assert_eq!(ring.len(), before - 2);
    assert_eq!(ring.as_contiguous_slice(), &[12, 13, 14]);
    ring.truncate_front(3);
    assert_eq!(ring.len(), 0);
}

#[test]
fn append_over_capacity_fails_and_keeps_content() {
    let mut ring = ByteRing::new();
    let full = vec![0xAAu8; BUFFER_SIZE];
    ring.append(&full).unwrap();
    assert_eq!(ring.len(), BUFFER_SIZE);
    assert_eq!(ring.append(&[1]), Err(Error::AllocationFailure));
    assert_eq!(ring.len(), BUFFER_SIZE);
    assert_eq!(ring.as_contiguous_slice()[0], 0xAA);
}

#[test]
fn compaction_keeps_content_in_order() {
    // Fill to capacity, discard most of the front, then append again: the
    // second append only fits once the dead prefix is compacted away.
    let mut ring = ByteRing::new();
    let mut first = Vec::new();
    for i in 0..BUFFER_SIZE {
        first.push((i % 251) as u8);
    }
    ring.append(&first).unwrap();
    ring.truncate_front(BUFFER_SIZE - 7);
    assert_eq!(ring.len(), 7);

    let second = vec![0x55u8; 100];
    ring.append(&second).unwrap();
    assert_eq!(ring.len(), 107);

    let contents = ring.as_contiguous_slice();
    assert_eq!(&contents[..7], &first[BUFFER_SIZE - 7..]);
    assert!(contents[7..].iter().all(|&b| b == 0x55));
}

#[test]
fn append_after_partial_truncate_keeps_order() {
    let mut ring = ByteRing::new();
    ring.append(&[1, 2, 3, 4]).unwrap();
    ring.truncate_front(1);
    ring.append(&[5, 6]).unwrap();
    assert_eq!(ring.as_contiguous_slice(), &[2, 3, 4, 5, 6]);
}
