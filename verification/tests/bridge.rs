use blobstore::bridge::{chunk_bytes, copy_chunks};
use blobstore::store::Store;

#[test]
fn chunks_are_full_except_the_last() {
    let out = chunk_bytes(b"abcdefgh", 3);
    assert_eq!(out.len(), 3);
    assert_eq!(out[0], b"abc".to_vec());
    assert_eq!(out[1], b"def".to_vec());
    assert_eq!(out[2], b"gh".to_vec());
}

#[test]
fn empty_input_yields_no_chunks() {
    let out = chunk_bytes(b"", 4);
    assert_eq!(out.len(), 0);
}

#[test]
fn exact_multiple_has_no_partial_chunk() {
    let out = chunk_bytes(b"abcdef", 3);
    assert_eq!(out.len(), 2);
    assert_eq!(out[0], b"abc".to_vec());
    assert_eq!(out[1], b"def".to_vec());
}

#[test]
fn copy_appends_every_chunk_in_order() {
    let chunks = vec![b"he".to_vec(), b"llo".to_vec()];
    let mut sink = b"say: ".to_vec();
    let n = copy_chunks(&chunks, &mut sink);
    assert_eq!(n, 5);
    assert_eq!(sink, b"say: hello".to_vec());
}

#[test]
fn ten_megabytes_round_trip_in_bounded_chunks() {
    let size: usize = 10 * 1024 * 1024;
    let chunk_size: usize = 64 * 1024;
    let mut body: Vec<u8> = Vec::with_capacity(size);
    let mut state: u32 = 0x2545_f491;
    for _ in 0..size {
        state = state.wrapping_mul(1_664_525).wrapping_add(1_013_904_223);
        body.push((state >> 24) as u8);
    }

    let chunks = chunk_bytes(&body, chunk_size);
    assert_eq!(chunks.len(), size.div_ceil(chunk_size));
    assert_eq!(chunks.len(), 160);
    for c in &chunks {
        assert!(!c.is_empty() && c.len() <= chunk_size);
    }

    let hash = b"fedcba9876543210fedcba9876543210";
    let mut s = Store::new(b"/data".to_vec(), b"/assets".to_vec());
    let n = s.store_binary(hash, &chunks).unwrap();
    assert_eq!(n, size);
    let back = s.fetch(hash).unwrap();
    assert_eq!(back.len(), size);
    assert_eq!(back, body);
}
